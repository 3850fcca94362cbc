use vstd::prelude::*;

verus! {

#[verifier::external_type_specification]
#[verifier::external_body]
pub struct ExRegexError(regex::Error);

/// Whether `regex::Regex::new` accepts the pattern.
pub uninterp spec fn regex_compiles(pattern: Seq<char>) -> bool;

/// Whether the regex compiled from `pattern` matches somewhere in `haystack`
/// (`regex::Regex::is_match`).
pub uninterp spec fn regex_finds(pattern: Seq<char>, haystack: Seq<char>) -> bool;

/// The pattern that makes a message a "pena" message.
pub open spec fn pena_pattern() -> Seq<char> {
    "[P|p][E|e][N|n][A|a]"@
}

/// `c` is one of the three characters of a class `[U|l]`: the upper-case
/// letter, the bar, or the lower-case letter.
pub open spec fn in_class(c: char, upper: char, lower: char) -> bool {
    c == upper || c == '|' || c == lower
}

/// Four consecutive characters starting at `i` each fall in the class of
/// the corresponding letter of "pena".
pub open spec fn pena_at(s: Seq<char>, i: int) -> bool {
    &&& 0 <= i
    &&& i + 4 <= s.len()
    &&& in_class(s[i], 'P', 'p')
    &&& in_class(s[i + 1], 'E', 'e')
    &&& in_class(s[i + 2], 'N', 'n')
    &&& in_class(s[i + 3], 'A', 'a')
}

/// Some window of the text is a "pena" in any mix of cases (or with bars).
pub open spec fn mentions_pena(s: Seq<char>) -> bool {
    exists|i: int| pena_at(s, i)
}

/// Compiles `pattern` with `regex::Regex::new` and, when it compiles, asks
/// `regex::Regex::is_match` whether it matches anywhere in `haystack`.
/// Whether a pattern compiles and what it matches are left to the names
/// `regex_compiles` and `regex_finds`.  For the one pattern the library uses,
/// the crate's documented syntax (a bracketed class matches any one of the
/// characters listed in it; `is_match` searches the whole haystack, unanchored)
/// gives the result outright: the pattern compiles, and it matches exactly
/// when some four consecutive characters fall in the four classes.
#[verifier::external_body]
pub(crate) fn regex_is_match(pattern: &str, haystack: &str) -> (res: Result<bool, regex::Error>)
    ensures
        res.is_ok() == regex_compiles(pattern@),
        res.is_ok() ==> res.unwrap() == regex_finds(pattern@, haystack@),
        pattern@ == pena_pattern() ==> res.is_ok() && res.unwrap() == mentions_pena(haystack@),
{
    match regex::Regex::new(pattern) {
        Ok(re) => Ok(re.is_match(haystack)),
        Err(e) => Err(e),
    }
}

/// Whether the text holds "pena" in any mix of cases, found by the regex
/// `[P|p][E|e][N|n][A|a]` (whose classes also admit a bar).
pub fn mentions_pena_word(text: &str) -> (found: bool)
    ensures
        found == mentions_pena(text@),
{
    match regex_is_match("[P|p][E|e][N|n][A|a]", text) {
        Ok(found) => found,
        Err(_) => {
            proof {
                assert(false);
            }
            false
        },
    }
}

} // verus!
