//! Properties that span several operations of the library.

use crate::queue::{
    tick_outcome, timers_wf, valid_wait, VoiceLineData, LATEST_TIME, MAX_WAIT_SECS, MIN_WAIT_SECS,
};
use crate::commands::pena::PenaCommand;
use crate::commands::secret::SecretCommand;
use crate::commands::vanaisa::VanaisaCommand;
use crate::commands::Command;
use crate::pattern::pena_at;
use crate::text::{decimal, digit_char};
use crate::voiceline::voiceline_name_text;
use vstd::prelude::*;

verus! {

/// Only one user is ever answered by the vanaisa command: for any other
/// author it never fires, whatever its chance came out as; for that user it
/// fires exactly when the chance came out true.
pub proof fn lemma_vanaisa_answers_only_its_user(
    cmd: VanaisaCommand,
    content: Seq<char>,
    author_id: u64,
    roll: bool,
)
    ensures
        Command::Vanaisa(cmd).fires(content, author_id, roll) <==> (author_id
            == 855177115104575518u64 && roll),
        author_id != 855177115104575518u64 ==> !Command::Vanaisa(cmd).fires(content, author_id, roll),
{
}

/// The pena command answers exactly the messages in which four consecutive
/// characters spell "pena" in any mix of cases (a bar standing for any
/// letter), whoever wrote them, when its chance came out true.
pub proof fn lemma_pena_answers_pena_messages(
    cmd: PenaCommand,
    content: Seq<char>,
    author_id: u64,
    roll: bool,
)
    ensures
        Command::Pena(cmd).fires(content, author_id, roll) <==> (roll && exists|i: int|
            #![trigger content[i]]
            0 <= i && i + 4 <= content.len() && (content[i] == 'p' || content[i] == 'P'
                || content[i] == '|') && (content[i + 1] == 'e' || content[i + 1] == 'E'
                || content[i + 1] == '|') && (content[i + 2] == 'n' || content[i + 2] == 'N'
                || content[i + 2] == '|') && (content[i + 3] == 'a' || content[i + 3] == 'A'
                || content[i + 3] == '|')),
{
    if Command::Pena(cmd).fires(content, author_id, roll) {
        let i = choose|i: int| pena_at(content, i);
        assert(0 <= i && i + 4 <= content.len());
    }
    if roll && exists|i: int|
            #![trigger content[i]]
        0 <= i && i + 4 <= content.len() && (content[i] == 'p' || content[i] == 'P'
            || content[i] == '|') && (content[i + 1] == 'e' || content[i + 1] == 'E'
            || content[i + 1] == '|') && (content[i + 2] == 'n' || content[i + 2] == 'N'
            || content[i + 2] == '|') && (content[i + 3] == 'a' || content[i + 3] == 'A'
            || content[i + 3] == '|') {
        let i = choose|i: int|
            #![trigger content[i]]
            0 <= i && i + 4 <= content.len() && (content[i] == 'p' || content[i] == 'P'
                || content[i] == '|') && (content[i + 1] == 'e' || content[i + 1] == 'E'
                || content[i + 1] == '|') && (content[i + 2] == 'n' || content[i + 2] == 'N'
                || content[i + 2] == '|') && (content[i + 3] == 'a' || content[i + 3] == 'A'
                || content[i + 3] == '|');
        assert(pena_at(content, i));
    }
}

/// `&secret` is run only by its one user, and only with that exact text;
/// it is left to no chance.
pub proof fn lemma_secret_only_for_its_user(
    cmd: SecretCommand,
    content: Seq<char>,
    author_id: u64,
    roll: bool,
)
    ensures
        Command::Secret(cmd).fires(content, author_id, roll) <==> (content == "&secret"@
            && author_id == 128685552450011137u64),
{
}

/// A timer started at `now` with a first wait of `wait` seconds is due at a
/// later time exactly when that wait has passed; the voice line then reports
/// the whole time since the start.
pub proof fn lemma_first_voiceline_after_start(
    now: u64,
    wait: u64,
    text_channel: u64,
    later: u64,
    next_wait: u64,
)
    requires
        now <= LATEST_TIME,
        valid_wait(wait),
    ensures
        VoiceLineData::started(now, wait, text_channel).is_due_at(later) <==> later >= now + wait,
        later >= now + wait ==> VoiceLineData::started(now, wait, text_channel).fired(
            later,
            next_wait,
        ).time_spent == later - now,
{
}

/// Two voice lines in a row: after a timer fires at `first` with a wait of
/// `wait`, it is not due again before `first + wait`; when it next fires, at
/// `second`, it reports the time since the moment its previous voice line was
/// due, which is at least the wait drawn in between.
pub proof fn lemma_consecutive_voicelines(
    d: VoiceLineData,
    first: u64,
    wait: u64,
    second: u64,
    next_wait: u64,
)
    requires
        d.wf(),
        d.is_due_at(first),
        first <= LATEST_TIME,
        valid_wait(wait),
    ensures
        d.fired(first, wait).wf(),
        d.fired(first, wait).is_due_at(second) <==> second >= first + wait,
        second >= first + wait ==> {
            &&& d.fired(first, wait).fired(second, next_wait).time_spent == second - d.new_time
            &&& d.fired(first, wait).fired(second, next_wait).time_spent >= wait
            &&& d.fired(first, wait).fired(second, next_wait).prev_time == first + wait
        },
{
}

/// A pass over the timers leaves none of them due, so a second pass at the
/// same moment plays nothing.
pub proof fn lemma_pass_leaves_nothing_due(
    before: Map<u64, VoiceLineData>,
    after: Map<u64, VoiceLineData>,
    now: u64,
)
    requires
        tick_outcome(before, after, now),
        now <= LATEST_TIME,
    ensures
        forall|g: u64| #[trigger] after.contains_key(g) ==> !after[g].is_due_at(now),
{
    assert forall|g: u64| #[trigger] after.contains_key(g) implies !after[g].is_due_at(now) by {
        assert(before.contains_key(g));
        if before[g].is_due_at(now) {
            let w = choose|w: u64| valid_wait(w) && after[g] == before[g].fired(now, w);
            assert(after[g].new_time == now + w);
        }
    }
}

/// With a clock that never goes back: when no timer's last voice line lies
/// after the moment of a pass, none does after the pass either, every timer
/// stays well formed (so the time reported, `now - prev_time`, never goes
/// below zero), and each timer that fired is next due 3 to 14 seconds later.
pub proof fn lemma_pass_keeps_timers_behind_clock(
    before: Map<u64, VoiceLineData>,
    after: Map<u64, VoiceLineData>,
    now: u64,
)
    requires
        tick_outcome(before, after, now),
        timers_wf(before),
        now <= LATEST_TIME,
        forall|g: u64| #[trigger] before.contains_key(g) ==> before[g].prev_time <= now,
    ensures
        timers_wf(after),
        forall|g: u64| #[trigger] after.contains_key(g) ==> after[g].prev_time <= now,
        forall|g: u64|
            #[trigger] after.contains_key(g) && before[g].is_due_at(now) ==> MIN_WAIT_SECS
                <= after[g].new_time - now < MAX_WAIT_SECS,
{
    assert forall|g: u64| #[trigger] after.contains_key(g) implies {
        &&& after[g].wf()
        &&& after[g].prev_time <= now
        &&& before[g].is_due_at(now) ==> MIN_WAIT_SECS <= after[g].new_time - now < MAX_WAIT_SECS
    } by {
        assert(before.contains_key(g));
        if before[g].is_due_at(now) {
            let w = choose|w: u64| valid_wait(w) && after[g] == before[g].fired(now, w);
            assert(after[g].new_time == now + w);
        }
    }
}

/// One change of the queue at time `now`: a pass over the timers, or a
/// guild's timer (re)started with a wait it drew.
pub open spec fn queue_step(
    before: Map<u64, VoiceLineData>,
    after: Map<u64, VoiceLineData>,
    now: u64,
) -> bool {
    ||| tick_outcome(before, after, now)
    ||| exists|guild: u64, wait: u64, text_channel: u64|
        valid_wait(wait) && after == before.insert(
            guild,
            VoiceLineData::started(now, wait, text_channel),
        )
}

/// Every timer is well formed and its last voice line lies no later than `now`.
pub open spec fn behind_clock(m: Map<u64, VoiceLineData>, now: u64) -> bool {
    &&& timers_wf(m)
    &&& forall|g: u64| #[trigger] m.contains_key(g) ==> m[g].prev_time <= now
}

/// One change keeps the timers behind a clock that did not go back.
pub proof fn lemma_step_keeps_timers_behind_clock(
    before: Map<u64, VoiceLineData>,
    after: Map<u64, VoiceLineData>,
    earlier: u64,
    now: u64,
)
    requires
        behind_clock(before, earlier),
        earlier <= now,
        now <= LATEST_TIME,
        queue_step(before, after, now),
    ensures
        behind_clock(after, now),
{
    if tick_outcome(before, after, now) {
        lemma_pass_keeps_timers_behind_clock(before, after, now);
    } else {
        let (guild, wait, text_channel) = choose|guild: u64, wait: u64, text_channel: u64|
            valid_wait(wait) && after == before.insert(
                guild,
                VoiceLineData::started(now, wait, text_channel),
            );
        assert forall|g: u64| #[trigger] after.contains_key(g) implies after[g].wf()
            && after[g].prev_time <= now by {
            if g != guild {
                assert(before.contains_key(g));
            }
        }
    }
}

/// Timers stay behind the clock: starting from an empty queue, through any
/// run of passes and (re)starts at times that never go back, after each
/// change every timer is well formed (so the time it reports never goes
/// below zero) and its last voice line lies no later than the time of that
/// change.
pub proof fn lemma_timers_stay_behind_clock(states: Seq<Map<u64, VoiceLineData>>, times: Seq<u64>)
    requires
        states.len() == times.len() + 1,
        states[0] == Map::<u64, VoiceLineData>::empty(),
        forall|k: int| 0 <= k < times.len() ==> #[trigger] times[k] <= LATEST_TIME,
        forall|k: int| 0 <= k < times.len() - 1 ==> #[trigger] times[k] <= times[k + 1],
        forall|k: int|
            0 <= k < times.len() ==> queue_step(#[trigger] states[k], states[k + 1], times[k]),
    ensures
        forall|k: int|
            0 <= k < times.len() ==> behind_clock(#[trigger] states[k + 1], times[k]),
    decreases times.len(),
{
    if times.len() > 0 {
        let n = times.len() - 1;
        lemma_timers_stay_behind_clock(states.take(n + 1), times.take(n));
        assert forall|k: int| 0 <= k < n implies behind_clock(#[trigger] states[k + 1], times[k]) by {
            assert(states.take(n + 1)[k + 1] == states[k + 1]);
            assert(times.take(n)[k] == times[k]);
        }
        if n == 0 {
            assert(behind_clock(states[0], times[0]));
            lemma_step_keeps_timers_behind_clock(states[0], states[1], times[0], times[0]);
        } else {
            assert(behind_clock(states[n], times[n - 1]));
            assert(times[n - 1] <= times[n]);
            assert(queue_step(states[n], states[n + 1], times[n]));
            lemma_step_keeps_timers_behind_clock(states[n], states[n + 1], times[n - 1], times[n]);
        }
    }
}

/// Every voice line that can be drawn has a two-digit name: `mis0N.mp3`.
pub proof fn lemma_drawn_voiceline_names(number: u64)
    requires
        1 <= number < 10,
    ensures
        voiceline_name_text(number) == "mis0"@ + seq![digit_char(number as nat)] + ".mp3"@,
{
    reveal_strlit("mis0");
    reveal_strlit("mis");
    reveal_strlit("0");
    assert(decimal(number as nat) == seq![digit_char(number as nat)]);
    assert(voiceline_name_text(number) =~= "mis0"@ + seq![digit_char(number as nat)] + ".mp3"@);
}

} // verus!
