//! The bot's reactions to gateway events other than commands.

use crate::text::{append_decimal, decimal};
use vstd::prelude::*;

verus! {

/// Seconds between two passes over the voice-line timers.
pub const TICK_INTERVAL_SECS: u64 = 1;

/// `name#discriminator running`, logged once the bot is ready.
pub open spec fn ready_text(name: Seq<char>, discriminator: u16) -> Seq<char> {
    name + "#"@ + decimal(discriminator as nat) + " running"@
}

/// The line logged once the bot is ready.
pub fn ready_line(name: &str, discriminator: u16) -> (line: String)
    ensures
        line@ == ready_text(name@, discriminator),
{
    let mut line = String::from_str(name);
    line.append("#");
    append_decimal(&mut line, discriminator as u64);
    line.append(" running");
    line
}

/// What the bot shows it is watching.
pub fn activity_name() -> (s: String)
    ensures
        s@ == "vanaisa"@,
{
    String::from_str("vanaisa")
}

/// Whether the loop that drives the voice-line timers has been started.
/// The gateway reports a ready cache more than once; the loop must start
/// on the first report only.
pub struct TimerLoopFlag {
    running: bool,
}

impl View for TimerLoopFlag {
    type V = bool;

    closed spec fn view(&self) -> bool {
        self.running
    }
}

impl TimerLoopFlag {
    pub fn new() -> (flag: Self)
        ensures
            !flag@,
    {
        TimerLoopFlag { running: false }
    }

    /// Called on each ready-cache report: `true` means "start the loop now",
    /// which happens exactly when it was not started before.
    pub fn claim(&mut self) -> (start: bool)
        ensures
            start == !old(self)@,
            final(self)@,
    {
        if !self.running {
            self.running = true;
            true
        } else {
            false
        }
    }
}

} // verus!
