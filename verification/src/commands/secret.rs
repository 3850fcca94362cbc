use crate::commands::IncomingMessage;
use crate::voiceline::AudioStep;
use vstd::prelude::*;

verus! {

/// `&secret`: one particular user makes the bot play a hidden track.
pub struct SecretCommand {
    name: &'static str,
}

/// The only user allowed to run `&secret`.
pub const SECRET_USER_ID: u64 = 128685552450011137;

impl SecretCommand {
    #[verifier::type_invariant]
    spec fn named(self) -> bool {
        self.name@ == "secret"@
    }

    /// The name the command reports.
    pub closed spec fn spec_name(self) -> Seq<char> {
        self.name@
    }

    pub fn new() -> (cmd: Self)
        ensures
            cmd.spec_name() == "secret"@,
    {
        SecretCommand { name: "secret" }
    }

    pub fn name(&self) -> (n: &'static str)
        ensures
            n@ == self.spec_name(),
            n@ == "secret"@,
    {
        proof {
            use_type_invariant(self);
        }
        self.name
    }

    /// The command answers only `&secret`, and only from its one user.
    pub open spec fn triggered_by(content: Seq<char>, author_id: u64) -> bool {
        content == "&secret"@ && author_id == SECRET_USER_ID
    }

    pub fn requirement(&self, msg: &IncomingMessage) -> (hit: bool)
        ensures
            hit == Self::triggered_by(msg.content@, msg.author_id),
    {
        msg.content == String::from_str("&secret") && msg.author_id == SECRET_USER_ID
    }

    /// `&secret` plays its track when the bot is in the guild's call, and
    /// does nothing (nor logs) otherwise.
    pub fn action(in_call: bool) -> (step: AudioStep)
        ensures
            in_call ==> (step matches AudioStep::Play(path) && path@
                == "./audio/Primogenitor_master-02.mp3"@),
            !in_call ==> step is Stop,
    {
        if in_call {
            AudioStep::Play(Self::audio_path())
        } else {
            AudioStep::Stop
        }
    }

    /// The file that `&secret` plays.
    pub fn audio_path() -> (path: String)
        ensures
            path@ == "./audio/Primogenitor_master-02.mp3"@,
    {
        String::from_str("./audio/Primogenitor_master-02.mp3")
    }
}

} // verus!
