use crate::commands::IncomingMessage;
use crate::pattern::{mentions_pena, mentions_pena_word};
use crate::random::ratio_chance;
use crate::text::{append_decimal, decimal};
use vstd::prelude::*;

verus! {

/// Answers, now and then, a message that says "pena" by pinging its author
/// several times.
pub struct PenaCommand {
    name: &'static str,
}

/// Chance, in percent, that a "pena" message is answered.
pub const PENA_CHANCE_PERCENT: u32 = 3;

/// How many pings one answer holds.
pub const PENA_PING_COUNT: usize = 5;

/// `<@id> mis see on`: a ping of the user followed by the phrase.
pub open spec fn ping_text(author_id: u64) -> Seq<char> {
    "<@"@ + decimal(author_id as nat) + "> mis see on"@
}

impl PenaCommand {
    #[verifier::type_invariant]
    spec fn named(self) -> bool {
        self.name@ == "pena"@
    }

    /// The name the command reports.
    pub closed spec fn spec_name(self) -> Seq<char> {
        self.name@
    }

    pub fn new() -> (cmd: Self)
        ensures
            cmd.spec_name() == "pena"@,
    {
        PenaCommand { name: "pena" }
    }

    pub fn name(&self) -> (n: &'static str)
        ensures
            n@ == self.spec_name(),
            n@ == "pena"@,
    {
        proof {
            use_type_invariant(self);
        }
        self.name
    }

    /// The message can trigger the command: it mentions "pena".  Whether it
    /// does is then up to chance.
    pub open spec fn candidate(content: Seq<char>) -> bool {
        mentions_pena(content)
    }

    /// The requirement once the chance has been drawn as `roll`.
    pub fn requirement_given(&self, msg: &IncomingMessage, roll: bool) -> (hit: bool)
        ensures
            hit == (Self::candidate(msg.content@) && roll),
            hit == (mentions_pena(msg.content@) && roll),
    {
        mentions_pena_word(msg.content.as_str()) && roll
    }

    /// The odds handed to the draw: three in a hundred.
    pub fn odds() -> (odds: (u32, u32))
        ensures
            odds == (PENA_CHANCE_PERCENT, 100u32),
    {
        (PENA_CHANCE_PERCENT, 100)
    }

    /// Draws the chance of the command: three in a hundred for a message
    /// that mentions "pena"; nothing is drawn, and the roll is lost, for any
    /// other message.
    pub fn draw_chance(&self, msg: &IncomingMessage) -> (roll: bool)
        ensures
            !Self::candidate(msg.content@) ==> !roll,
            !mentions_pena(msg.content@) ==> !roll,
    {
        if mentions_pena_word(msg.content.as_str()) {
            let (numerator, denominator) = Self::odds();
            ratio_chance(numerator, denominator)
        } else {
            false
        }
    }

    /// A message that mentions "pena" triggers the command with a chance of
    /// three in a hundred; no other message does.  The chance is drawn only
    /// for a message that mentions "pena".
    pub fn requirement(&self, msg: &IncomingMessage) -> (hit: bool)
        ensures
            hit ==> Self::candidate(msg.content@),
            hit ==> mentions_pena(msg.content@),
    {
        let roll = self.draw_chance(msg);
        self.requirement_given(msg, roll)
    }

    /// One ping of the author.
    pub fn ping(author_id: u64) -> (s: String)
        ensures
            s@ == ping_text(author_id),
    {
        let mut s = String::from_str("<@");
        append_decimal(&mut s, author_id);
        s.append("> mis see on");
        proof {
            assert(s@ == ping_text(author_id));
        }
        s
    }

    /// The messages that the command sends, in order: the same ping, five
    /// times.
    pub fn messages(author_id: u64) -> (msgs: Vec<String>)
        ensures
            msgs.len() == PENA_PING_COUNT,
            forall|i: int| 0 <= i < msgs.len() ==> #[trigger] msgs[i]@ == ping_text(author_id),
    {
        let mut msgs: Vec<String> = Vec::new();
        while msgs.len() < PENA_PING_COUNT
            invariant
                msgs.len() <= PENA_PING_COUNT,
                forall|i: int| 0 <= i < msgs.len() ==> #[trigger] msgs[i]@ == ping_text(author_id),
            decreases PENA_PING_COUNT - msgs.len(),
        {
            msgs.push(Self::ping(author_id));
        }
        msgs
    }
}

} // verus!
