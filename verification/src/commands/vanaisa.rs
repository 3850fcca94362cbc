use crate::commands::{refusal, refusal_text, IncomingMessage};
use crate::random::ratio_chance;
use vstd::prelude::*;

verus! {

/// Answers, now and then, any message of one particular user.
pub struct VanaisaCommand {
    name: &'static str,
}

/// The user whose messages the command answers.
pub const VANAISA_USER_ID: u64 = 855177115104575518;

/// Chance, in percent, that one of that user's messages is answered.
pub const VANAISA_CHANCE_PERCENT: u32 = 20;

impl VanaisaCommand {
    #[verifier::type_invariant]
    spec fn named(self) -> bool {
        self.name@ == "vanaisa"@
    }

    /// The name the command reports.
    pub closed spec fn spec_name(self) -> Seq<char> {
        self.name@
    }

    pub fn new() -> (cmd: Self)
        ensures
            cmd.spec_name() == "vanaisa"@,
    {
        VanaisaCommand { name: "vanaisa" }
    }

    pub fn name(&self) -> (n: &'static str)
        ensures
            n@ == self.spec_name(),
            n@ == "vanaisa"@,
    {
        proof {
            use_type_invariant(self);
        }
        self.name
    }

    /// The message can trigger the command: it comes from the one user.
    pub open spec fn candidate(author_id: u64) -> bool {
        author_id == VANAISA_USER_ID
    }

    /// The requirement once the chance has been drawn as `roll`.
    pub fn requirement_given(&self, msg: &IncomingMessage, roll: bool) -> (hit: bool)
        ensures
            hit == (Self::candidate(msg.author_id) && roll),
            hit ==> msg.author_id == VANAISA_USER_ID,
    {
        msg.author_id == VANAISA_USER_ID && roll
    }

    /// A message of the one user triggers the command with a chance of one
    /// in five; no other message does.  The chance is drawn only for that
    /// user's messages.
    pub fn requirement(&self, msg: &IncomingMessage) -> (hit: bool)
        ensures
            hit ==> Self::candidate(msg.author_id),
            hit ==> msg.author_id == VANAISA_USER_ID,
    {
        let roll = self.draw_chance(msg);
        self.requirement_given(msg, roll)
    }

    /// The odds handed to the draw: twenty in a hundred.
    pub fn odds() -> (odds: (u32, u32))
        ensures
            odds == (VANAISA_CHANCE_PERCENT, 100u32),
    {
        (VANAISA_CHANCE_PERCENT, 100)
    }

    /// Draws the chance of the command: one in five for a message of the one
    /// user; nothing is drawn, and the roll is lost, for anyone else.
    pub fn draw_chance(&self, msg: &IncomingMessage) -> (roll: bool)
        ensures
            !Self::candidate(msg.author_id) ==> !roll,
            msg.author_id != VANAISA_USER_ID ==> !roll,
    {
        if msg.author_id == VANAISA_USER_ID {
            let (numerator, denominator) = Self::odds();
            ratio_chance(numerator, denominator)
        } else {
            false
        }
    }

    /// The reply that the command sends.
    pub fn reply() -> (s: String)
        ensures
            s@ == refusal_text(),
    {
        refusal()
    }
}

} // verus!
