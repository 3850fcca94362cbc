//! What the bot posts and plays when a guild's voice line is due.

use crate::random::random_in_range;
use crate::text::{append_decimal, decimal};
use vstd::prelude::*;

verus! {

/// The text channel where every voice line is echoed.
pub const COMMS_CHANNEL_ID: u64 = 857297760414728262;

/// Milliseconds between a voice line and its echo in the comms channel.
pub const COMMS_DELAY_MILLIS: u64 = 1500;

/// Voice lines are numbered from 1 up to, not including, this bound.
pub const VOICELINE_COUNT_BOUND: u64 = 10;

/// The file name of voice line `number`: two digits below ten.
pub open spec fn voiceline_name_text(number: u64) -> Seq<char> {
    "mis"@ + (if number < 10 {
        "0"@ + decimal(number as nat)
    } else {
        decimal(number as nat)
    }) + ".mp3"@
}

/// The path of voice line `number`.
pub open spec fn voiceline_path_text(number: u64) -> Seq<char> {
    "./audio/"@ + voiceline_name_text(number)
}

/// The text posted with a voice line: the time since the previous one, in
/// minutes and seconds, behind a spoiler.
pub open spec fn caption_text(time_spent: u64) -> Seq<char> {
    "mis see on\n      ||"@ + decimal((time_spent / 60) as nat) + "m "@ + decimal(
        (time_spent % 60) as nat,
    ) + "s||"@
}

/// The path of voice line `number`.
pub fn voiceline_path(number: u64) -> (path: String)
    ensures
        path@ == voiceline_path_text(number),
{
    let mut path = String::from_str("./audio/");
    path.append("mis");
    if number < 10 {
        path.append("0");
        append_decimal(&mut path, number);
    } else {
        append_decimal(&mut path, number);
    }
    path.append(".mp3");
    proof {
        assert(path@ =~= voiceline_path_text(number));
    }
    path
}

/// The range the voice-line number is drawn from: 1 up to, not including,
/// `VOICELINE_COUNT_BOUND`.
pub fn voiceline_number_range() -> (range: (u64, u64))
    ensures
        range == (1u64, VOICELINE_COUNT_BOUND),
{
    (1, VOICELINE_COUNT_BOUND)
}

/// Draws the voice line to play: its number and its path.
pub fn choose_voiceline() -> (choice: (u64, String))
    ensures
        1 <= choice.0 < VOICELINE_COUNT_BOUND,
        choice.1@ == voiceline_path_text(choice.0),
{
    let (low, high) = voiceline_number_range();
    let number = random_in_range(low, high);
    (number, voiceline_path(number))
}

/// Splits seconds into whole minutes and the seconds left over.
pub fn split_minutes(time_spent: u64) -> (parts: (u64, u64))
    ensures
        parts.0 == time_spent / 60,
        parts.1 == time_spent % 60,
        parts.0 * 60 + parts.1 == time_spent,
        parts.1 < 60,
{
    let mins = time_spent / 60;
    let secs = time_spent - mins * 60;
    (mins, secs)
}

/// The text posted with a voice line.
pub fn caption(time_spent: u64) -> (s: String)
    ensures
        s@ == caption_text(time_spent),
{
    let (mins, secs) = split_minutes(time_spent);
    let mut s = String::from_str("mis see on\n      ||");
    append_decimal(&mut s, mins);
    s.append("m ");
    append_decimal(&mut s, secs);
    s.append("s||");
    proof {
        assert(s@ =~= caption_text(time_spent));
    }
    s
}

/// The echo posted in the comms channel after a voice line.
pub fn comms_text() -> (s: String)
    ensures
        s@ == "(mis see on)"@,
{
    String::from_str("(mis see on)")
}

/// What an action that plays audio in a guild's call does first.
pub enum AudioStep {
    /// The bot is in the call: open and play the file at this path.
    Play(String),
    /// The bot is in no call in the guild: the action ends here.
    Stop,
}

/// What follows the attempt to open the audio.
pub enum AudioOpened {
    /// It opened: play it and go on.
    Play,
    /// It did not: post this text, and the action ends here.
    Report(String),
}

/// A voice line plays only while the bot is in the guild's call; the line
/// is then numbered `number`.
pub fn voiceline_step_given(in_call: bool, number: u64) -> (step: AudioStep)
    ensures
        in_call ==> (step matches AudioStep::Play(path) && path@ == voiceline_path_text(number)),
        !in_call ==> step is Stop,
{
    if in_call {
        AudioStep::Play(voiceline_path(number))
    } else {
        AudioStep::Stop
    }
}

/// A voice line plays only while the bot is in the guild's call; its
/// number is then drawn (and only then).
pub fn voiceline_step(in_call: bool) -> (step: AudioStep)
    ensures
        in_call ==> (step matches AudioStep::Play(path) && exists|number: u64|
            1 <= number < VOICELINE_COUNT_BOUND && path@ == voiceline_path_text(number)),
        !in_call ==> step is Stop,
{
    if in_call {
        let choice = choose_voiceline();
        AudioStep::Play(choice.1)
    } else {
        AudioStep::Stop
    }
}

/// After trying to open a file: play it, or report the failure and stop.
pub fn after_audio_open(opened: bool) -> (next: AudioOpened)
    ensures
        opened ==> next is Play,
        !opened ==> (next matches AudioOpened::Report(text) && text@ == "ffmpeg error"@),
{
    if opened {
        AudioOpened::Play
    } else {
        AudioOpened::Report(ffmpeg_error_text())
    }
}

/// Posted when the audio of a voice line cannot be opened.
pub fn ffmpeg_error_text() -> (s: String)
    ensures
        s@ == "ffmpeg error"@,
{
    String::from_str("ffmpeg error")
}

} // verus!
