//! Decision logic of the "vanaisa" Discord voice bot: which command a
//! message triggers, what each command answers, and the per-guild timers
//! that decide when the next voice line plays.

pub mod text;
pub mod random;
pub mod pattern;
pub mod commands;
pub mod queue;
pub mod voiceline;
pub mod handler;
pub mod laws;
