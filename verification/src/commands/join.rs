use crate::commands::{refusal, refusal_text, IncomingMessage};
use vstd::prelude::*;

verus! {

/// `&join`: the bot joins the author's voice channel and starts its timer.
pub struct JoinCommand {
    name: &'static str,
}

impl JoinCommand {
    #[verifier::type_invariant]
    spec fn named(self) -> bool {
        self.name@ == "join"@
    }

    /// The name the command reports.
    pub closed spec fn spec_name(self) -> Seq<char> {
        self.name@
    }

    pub fn new() -> (cmd: Self)
        ensures
            cmd.spec_name() == "join"@,
    {
        JoinCommand { name: "join" }
    }

    pub fn name(&self) -> (n: &'static str)
        ensures
            n@ == self.spec_name(),
            n@ == "join"@,
    {
        proof {
            use_type_invariant(self);
        }
        self.name
    }

    /// A message triggers the command when its whole text is `&join`.
    pub open spec fn triggered_by(content: Seq<char>) -> bool {
        content == "&join"@
    }

    pub fn requirement(&self, msg: &IncomingMessage) -> (hit: bool)
        ensures
            hit == Self::triggered_by(msg.content@),
    {
        msg.content == String::from_str("&join")
    }

    /// Where the bot connects: the author's voice channel.  An author who is
    /// in no voice channel gets the refusal as a reply instead.
    pub fn connect_target(voice_channel: Option<u64>) -> (plan: Result<u64, String>)
        ensures
            voice_channel matches Some(c) ==> plan == Ok::<u64, String>(c),
            voice_channel is None ==> (plan matches Err(reply) && reply@ == refusal_text()),
    {
        match voice_channel {
            Some(c) => Ok(c),
            None => Err(refusal()),
        }
    }
}

} // verus!
