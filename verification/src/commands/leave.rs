use crate::commands::{refusal, refusal_text, IncomingMessage};
use vstd::prelude::*;

verus! {

/// `&leave`: the bot leaves the voice call of the guild.
pub struct LeaveCommand {
    name: &'static str,
}

/// What `&leave` does in a guild.
pub enum LeaveAction {
    /// Leave the voice call the bot is in.
    Disconnect,
    /// The bot is in no call there: reply with this text.
    Reply(String),
}

impl LeaveCommand {
    #[verifier::type_invariant]
    spec fn named(self) -> bool {
        self.name@ == "leave"@
    }

    /// The name the command reports.
    pub closed spec fn spec_name(self) -> Seq<char> {
        self.name@
    }

    pub fn new() -> (cmd: Self)
        ensures
            cmd.spec_name() == "leave"@,
    {
        LeaveCommand { name: "leave" }
    }

    pub fn name(&self) -> (n: &'static str)
        ensures
            n@ == self.spec_name(),
            n@ == "leave"@,
    {
        proof {
            use_type_invariant(self);
        }
        self.name
    }

    /// A message triggers the command when its whole text is `&leave`.
    pub open spec fn triggered_by(content: Seq<char>) -> bool {
        content == "&leave"@
    }

    pub fn requirement(&self, msg: &IncomingMessage) -> (hit: bool)
        ensures
            hit == Self::triggered_by(msg.content@),
    {
        msg.content == String::from_str("&leave")
    }

    /// Leave when the bot is in a call in the guild; otherwise refuse.
    pub fn action(in_call: bool) -> (act: LeaveAction)
        ensures
            in_call ==> act is Disconnect,
            !in_call ==> (act matches LeaveAction::Reply(reply) && reply@ == refusal_text()),
    {
        if in_call {
            LeaveAction::Disconnect
        } else {
            LeaveAction::Reply(refusal())
        }
    }
}

} // verus!
