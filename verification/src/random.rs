use rand::Rng;
use vstd::prelude::*;

verus! {

/// Draws from the thread-local generator of `rand` with
/// `rand::Rng::gen_ratio(numerator, denominator)`: `true` with probability
/// `numerator / denominator`.  The crate documents, and its source shows,
/// that a numerator of 0 always gives `false`, that a numerator equal to
/// the denominator always gives `true`, and that it panics when the
/// denominator is 0 or the numerator exceeds it.  Nothing else about the
/// outcome is claimed here: it is random.
#[verifier::external_body]
pub(crate) fn ratio_chance(numerator: u32, denominator: u32) -> (hit: bool)
    requires
        0 < denominator,
        numerator <= denominator,
    ensures
        numerator == 0 ==> !hit,
        numerator == denominator ==> hit,
{
    rand::thread_rng().gen_ratio(numerator, denominator)
}

/// Draws a value of the half-open range `low..high` from the thread-local
/// generator of `rand` with `rand::Rng::gen_range`.  The crate panics on an
/// empty range and otherwise returns a value inside the range; which one is
/// random, so only the bounds are claimed.
#[verifier::external_body]
pub(crate) fn random_in_range(low: u64, high: u64) -> (value: u64)
    requires
        low < high,
    ensures
        low <= value < high,
{
    rand::thread_rng().gen_range(low..high)
}

} // verus!
