//! The chat commands of the bot: which message triggers which command, and
//! what each command answers.

pub mod join;
pub mod leave;
pub mod pena;
pub mod secret;
pub mod vanaisa;

use crate::text::{append_decimal, decimal};
use join::JoinCommand;
use leave::LeaveCommand;
use pena::PenaCommand;
use secret::SecretCommand;
use test::TestCommand;
use vanaisa::VanaisaCommand;
use vstd::prelude::*;

verus! {

/// What the commands read of a chat message.
pub struct IncomingMessage {
    /// The whole text of the message.
    pub content: String,
    /// The id of the user who wrote it.
    pub author_id: u64,
    /// The user name of its author.
    pub author_name: String,
}

/// The bot's stock answer.
pub open spec fn refusal_text() -> Seq<char> {
    "Mis see on"@
}

pub fn refusal() -> (s: String)
    ensures
        s@ == refusal_text(),
{
    String::from_str("Mis see on")
}

/// The line logged after a command ran: `name#id ran command cmd`.
pub open spec fn log_text(author_name: Seq<char>, author_id: u64, command: Seq<char>) -> Seq<char> {
    author_name + "#"@ + decimal(author_id as nat) + " ran command "@ + command
}

/// One of the bot's commands.
pub enum Command {
    Pena(PenaCommand),
    Vanaisa(VanaisaCommand),
    Join(JoinCommand),
    Leave(LeaveCommand),
    Secret(SecretCommand),
    Test(TestCommand),
}

impl Command {
    pub open spec fn spec_name(self) -> Seq<char> {
        match self {
            Command::Pena(c) => c.spec_name(),
            Command::Vanaisa(c) => c.spec_name(),
            Command::Join(c) => c.spec_name(),
            Command::Leave(c) => c.spec_name(),
            Command::Secret(c) => c.spec_name(),
            Command::Test(c) => c.spec_name(),
        }
    }

    /// The message passes the command's fixed test (its text, its author).
    pub open spec fn candidate(self, content: Seq<char>, author_id: u64) -> bool {
        match self {
            Command::Pena(_) => PenaCommand::candidate(content),
            Command::Vanaisa(_) => VanaisaCommand::candidate(author_id),
            Command::Join(_) => JoinCommand::triggered_by(content),
            Command::Leave(_) => LeaveCommand::triggered_by(content),
            Command::Secret(_) => SecretCommand::triggered_by(content, author_id),
            Command::Test(_) => TestCommand::triggered_by(content),
        }
    }

    /// After the fixed test, the command is left to chance.
    pub open spec fn by_chance(self) -> bool {
        self is Pena || self is Vanaisa
    }

    /// The command is triggered, given the chance drawn for it as `roll`.
    pub open spec fn fires(self, content: Seq<char>, author_id: u64, roll: bool) -> bool {
        self.candidate(content, author_id) && (!self.by_chance() || roll)
    }

    pub fn name(&self) -> (n: &'static str)
        ensures
            n@ == self.spec_name(),
    {
        match self {
            Command::Pena(c) => c.name(),
            Command::Vanaisa(c) => c.name(),
            Command::Join(c) => c.name(),
            Command::Leave(c) => c.name(),
            Command::Secret(c) => c.name(),
            Command::Test(c) => c.name(),
        }
    }

    /// Whether the message triggers the command, drawing the chance where
    /// the command has one (and only after its fixed test passed).
    pub fn requirement(&self, msg: &IncomingMessage) -> (hit: bool)
        ensures
            hit ==> self.candidate(msg.content@, msg.author_id),
            !self.by_chance() ==> hit == self.candidate(msg.content@, msg.author_id),
    {
        let roll = self.draw_chance(msg);
        self.requirement_given(msg, roll)
    }

    /// Draws the chance of the command for the message.  A command left to
    /// chance draws only once its fixed test passed (the roll is lost
    /// otherwise); a command without chance draws nothing.
    pub fn draw_chance(&self, msg: &IncomingMessage) -> (roll: bool)
        ensures
            self.by_chance() && !self.candidate(msg.content@, msg.author_id) ==> !roll,
            !self.by_chance() ==> roll,
    {
        match self {
            Command::Pena(c) => c.draw_chance(msg),
            Command::Vanaisa(c) => c.draw_chance(msg),
            _ => true,
        }
    }

    /// Whether the message triggers the command when the chance, if any,
    /// came out as `roll`.
    pub fn requirement_given(&self, msg: &IncomingMessage, roll: bool) -> (hit: bool)
        ensures
            hit == self.fires(msg.content@, msg.author_id, roll),
    {
        match self {
            Command::Pena(c) => c.requirement_given(msg, roll),
            Command::Vanaisa(c) => c.requirement_given(msg, roll),
            Command::Join(c) => c.requirement(msg),
            Command::Leave(c) => c.requirement(msg),
            Command::Secret(c) => c.requirement(msg),
            Command::Test(c) => c.requirement(msg),
        }
    }

    /// The log line for a run of the command by the given author.
    pub fn log(&self, author_name: &str, author_id: u64) -> (line: String)
        ensures
            line@ == log_text(author_name@, author_id, self.spec_name()),
    {
        let mut line = String::from_str(author_name);
        line.append("#");
        append_decimal(&mut line, author_id);
        line.append(" ran command ");
        line.append(self.name());
        line
    }
}

/// `chosen` is the command that runs when the chance of each command came
/// out as `rolls`: the first in `cmds` that fires, or none when none does.
pub open spec fn picks(
    cmds: Seq<Command>,
    content: Seq<char>,
    author_id: u64,
    rolls: Seq<bool>,
    chosen: Option<usize>,
) -> bool {
    match chosen {
        Some(i) => {
            &&& i < cmds.len()
            &&& cmds[i as int].fires(content, author_id, rolls[i as int])
            &&& forall|j: int|
                0 <= j < i ==> !#[trigger] cmds[j].fires(content, author_id, rolls[j])
        },
        None => forall|j: int|
            0 <= j < cmds.len() ==> !#[trigger] cmds[j].fires(content, author_id, rolls[j]),
    }
}

/// The commands the bot listens to, tried in order.
pub struct CommandList {
    pub list: Vec<Command>,
}

impl CommandList {
    /// The bot listens to "pena" messages first, then to its one user.
    pub fn new() -> (cl: Self)
        ensures
            cl.list.len() == 2,
            cl.list[0] is Pena,
            cl.list[1] is Vanaisa,
            cl.list[0].spec_name() == "pena"@,
            cl.list[1].spec_name() == "vanaisa"@,
    {
        let pena_cmd = PenaCommand::new();
        let vanaisa_cmd = VanaisaCommand::new();
        let mut list: Vec<Command> = Vec::new();
        list.push(Command::Pena(pena_cmd));
        list.push(Command::Vanaisa(vanaisa_cmd));
        CommandList { list }
    }

    /// The command that a message runs, when the chance of each command was
    /// drawn as `rolls` (one per command, read only where it matters): the
    /// first one in the list that fires, or none.
    pub fn select_given(&self, msg: &IncomingMessage, rolls: &Vec<bool>) -> (chosen: Option<usize>)
        requires
            rolls.len() == self.list.len(),
        ensures
            picks(self.list@, msg.content@, msg.author_id, rolls@, chosen),
    {
        let mut i: usize = 0;
        while i < self.list.len()
            invariant
                i <= self.list.len(),
                rolls.len() == self.list.len(),
                forall|j: int|
                    0 <= j < i ==> !#[trigger] self.list[j].fires(
                        msg.content@,
                        msg.author_id,
                        rolls[j],
                    ),
            decreases self.list.len() - i,
        {
            if self.list[i].requirement_given(msg, rolls[i]) {
                return Some(i);
            }
            i = i + 1;
        }
        None
    }

    /// The command that a message runs: the commands are tried in order,
    /// each drawing its chance as the search reaches it, and the first whose
    /// requirement holds is picked.  The result is what `select_given` gives
    /// on the draws made (draws that were not made stand as `false`).  A
    /// command picked passed its fixed test, and every command before it that
    /// has no chance failed its test.
    pub fn select(&self, msg: &IncomingMessage) -> (chosen: Option<usize>)
        ensures
            exists|rolls: Seq<bool>|
                rolls.len() == self.list.len() && #[trigger] picks(
                    self.list@,
                    msg.content@,
                    msg.author_id,
                    rolls,
                    chosen,
                ),
            chosen matches Some(i) ==> {
                &&& i < self.list.len()
                &&& self.list[i as int].candidate(msg.content@, msg.author_id)
                &&& forall|j: int|
                    0 <= j < i ==> (!#[trigger] self.list[j].candidate(msg.content@, msg.author_id)
                        || self.list[j].by_chance())
            },
            chosen is None ==> forall|j: int|
                0 <= j < self.list.len() ==> (!#[trigger] self.list[j].candidate(
                    msg.content@,
                    msg.author_id,
                ) || self.list[j].by_chance()),
    {
        let mut i: usize = 0;
        let ghost mut rolls: Seq<bool> = Seq::empty();
        while i < self.list.len()
            invariant
                i <= self.list.len(),
                rolls.len() == i,
                forall|j: int| 0 <= j < i && !self.list[j].by_chance() ==> #[trigger] rolls[j],
                forall|j: int|
                    0 <= j < i ==> !#[trigger] self.list[j].fires(
                        msg.content@,
                        msg.author_id,
                        rolls[j],
                    ),
            decreases self.list.len() - i,
        {
            let roll = self.list[i].draw_chance(msg);
            proof {
                rolls = rolls.push(roll);
            }
            if self.list[i].requirement_given(msg, roll) {
                proof {
                    let full = rolls + Seq::new((self.list.len() - i - 1) as nat, |k: int| false);
                    assert(full[i as int] == roll);
                    assert forall|j: int| 0 <= j < i implies !#[trigger] self.list[j].fires(
                        msg.content@,
                        msg.author_id,
                        full[j],
                    ) by {
                        assert(full[j] == rolls[j]);
                    }
                    assert(picks(self.list@, msg.content@, msg.author_id, full, Some(i)));
                    assert forall|j: int| 0 <= j < i implies (!#[trigger] self.list[j].candidate(
                        msg.content@,
                        msg.author_id,
                    ) || self.list[j].by_chance()) by {
                        assert(!self.list[j].fires(msg.content@, msg.author_id, rolls[j]));
                        if !self.list[j].by_chance() {
                            assert(rolls[j]);
                        }
                    }
                }
                return Some(i);
            }
            i = i + 1;
        }
        proof {
            assert(picks(self.list@, msg.content@, msg.author_id, rolls, None));
            assert forall|j: int| 0 <= j < i implies (!#[trigger] self.list[j].candidate(
                msg.content@,
                msg.author_id,
            ) || self.list[j].by_chance()) by {
                assert(!self.list[j].fires(msg.content@, msg.author_id, rolls[j]));
                if !self.list[j].by_chance() {
                    assert(rolls[j]);
                }
            }
        }
        None
    }
}

} // verus!
