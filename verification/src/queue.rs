//! The per-guild timers that decide when the bot plays its next voice line.

use crate::random::random_in_range;
use std::collections::HashMap;
use vstd::prelude::*;
use vstd::std_specs::iter::IteratorSpec;

verus! {

broadcast use vstd::std_specs::hash::group_hash_axioms;

/// Fewest seconds between two voice lines in a guild.
pub const MIN_WAIT_SECS: u64 = 3;

/// Bound, never reached, on the seconds between two voice lines.
pub const MAX_WAIT_SECS: u64 = 15;

/// The latest time (in seconds) at which a timer can still be scheduled.
pub const LATEST_TIME: u64 = 0xffff_ffff_ffff_fff1;

/// The timer of one guild.  Times are in seconds.
#[derive(Clone, Copy)]
pub struct VoiceLineData {
    /// When the next voice line is due.
    pub new_time: u64,
    /// When the last voice line was due (or when the timer started).
    pub prev_time: u64,
    /// Seconds between the last two voice lines, as reported with the last one.
    pub time_spent: u64,
    /// The text channel that the bot posts in.
    pub text_channel: u64,
}

/// The range the wait before a voice line is drawn from: `MIN_WAIT_SECS`
/// up to, not including, `MAX_WAIT_SECS`.
pub fn wait_range() -> (range: (u64, u64))
    ensures
        range == (MIN_WAIT_SECS, MAX_WAIT_SECS),
{
    (MIN_WAIT_SECS, MAX_WAIT_SECS)
}

/// A wait that the timer can draw.
pub open spec fn valid_wait(wait: u64) -> bool {
    MIN_WAIT_SECS <= wait < MAX_WAIT_SECS
}

impl VoiceLineData {
    /// The next voice line is due strictly after the last one.
    pub open spec fn wf(self) -> bool {
        self.prev_time < self.new_time
    }

    /// A fresh timer, started at `now` with the first voice line `wait`
    /// seconds away.
    pub open spec fn started(now: u64, wait: u64, text_channel: u64) -> Self {
        VoiceLineData {
            new_time: (now + wait) as u64,
            prev_time: now,
            time_spent: 0,
            text_channel,
        }
    }

    /// The voice line is due at `now`.
    pub open spec fn is_due_at(self, now: u64) -> bool {
        self.new_time <= now
    }

    /// The timer after its voice line played at `now`, the next one `wait`
    /// seconds away: it reports the time since the previous voice line.
    pub open spec fn fired(self, now: u64, wait: u64) -> Self {
        VoiceLineData {
            new_time: (now + wait) as u64,
            prev_time: self.new_time,
            time_spent: (now - self.prev_time) as u64,
            text_channel: self.text_channel,
        }
    }

    pub fn start(now: u64, wait: u64, text_channel: u64) -> (d: Self)
        requires
            now <= LATEST_TIME,
            valid_wait(wait),
        ensures
            d == Self::started(now, wait, text_channel),
            d.wf(),
    {
        VoiceLineData { new_time: now + wait, prev_time: now, time_spent: 0, text_channel }
    }

    pub fn is_due(&self, now: u64) -> (due: bool)
        ensures
            due == self.is_due_at(now),
    {
        self.new_time <= now
    }

    /// Seconds until the voice line is due.
    pub fn seconds_left(&self, now: u64) -> (left: u64)
        requires
            !self.is_due_at(now),
        ensures
            left == self.new_time - now,
    {
        self.new_time - now
    }

    /// Marks the voice line played at `now` and schedules the next one
    /// `wait` seconds later.
    pub fn fire(&mut self, now: u64, wait: u64)
        requires
            old(self).wf(),
            old(self).is_due_at(now),
            now <= LATEST_TIME,
            valid_wait(wait),
        ensures
            *final(self) == old(self).fired(now, wait),
            final(self).wf(),
            !final(self).is_due_at(now),
    {
        self.time_spent = now - self.prev_time;
        self.prev_time = self.new_time;
        self.new_time = now + wait;
    }
}

/// What one pass over the timers found for a guild.
pub enum TickEvent {
    /// The voice line was due; this is the timer after it.
    Fired { guild: u64, timer: VoiceLineData },
    /// Not yet due: this many seconds remain.
    Waiting { guild: u64, seconds_left: u64 },
}

impl TickEvent {
    pub open spec fn guild(self) -> u64 {
        match self {
            TickEvent::Fired { guild, .. } => guild,
            TickEvent::Waiting { guild, .. } => guild,
        }
    }
}

/// Every timer of the map is well formed.
pub open spec fn timers_wf(m: Map<u64, VoiceLineData>) -> bool {
    forall|g: u64| #[trigger] m.contains_key(g) ==> m[g].wf()
}

/// The timers of all guilds the bot has joined, by guild id.
pub struct VoiceQueue {
    entries: HashMap<u64, VoiceLineData>,
}

impl View for VoiceQueue {
    type V = Map<u64, VoiceLineData>;

    closed spec fn view(&self) -> Map<u64, VoiceLineData> {
        self.entries@
    }
}

/// Each timer of `before` that was due at `now` fired, with a wait it
/// drew; the others are unchanged; no guild came or went.
pub open spec fn tick_outcome(
    before: Map<u64, VoiceLineData>,
    after: Map<u64, VoiceLineData>,
    now: u64,
) -> bool {
    &&& after.dom() == before.dom()
    &&& forall|g: u64| #[trigger]
        before.contains_key(g) ==> {
            &&& before[g].is_due_at(now) ==> exists|wait: u64|
                valid_wait(wait) && after[g] == before[g].fired(now, wait)
            &&& !before[g].is_due_at(now) ==> after[g] == before[g]
        }
}

/// What a pass reports of one guild agrees with the timers before and after.
pub open spec fn event_agrees(
    e: TickEvent,
    before: Map<u64, VoiceLineData>,
    after: Map<u64, VoiceLineData>,
    now: u64,
) -> bool {
    match e {
        TickEvent::Fired { guild, timer } => {
            &&& before.contains_key(guild)
            &&& before[guild].is_due_at(now)
            &&& timer == after[guild]
        },
        TickEvent::Waiting { guild, seconds_left } => {
            &&& before.contains_key(guild)
            &&& !before[guild].is_due_at(now)
            &&& seconds_left == before[guild].new_time - now
        },
    }
}

/// The guild of each event, in order.
pub open spec fn event_guilds(events: Seq<TickEvent>) -> Seq<u64> {
    events.map_values(|e: TickEvent| e.guild())
}

impl VoiceQueue {
    #[verifier::type_invariant]
    spec fn timers_are_wf(self) -> bool {
        timers_wf(self.entries@)
    }

    pub fn new() -> (q: Self)
        ensures
            q@ == Map::<u64, VoiceLineData>::empty(),
    {
        VoiceQueue { entries: HashMap::new() }
    }

    /// The timer of a guild, if the bot joined it.  Every timer in the
    /// queue is well formed.
    pub fn get(&self, guild: u64) -> (t: Option<VoiceLineData>)
        ensures
            self@.contains_key(guild) ==> t == Some(self@[guild]),
            !self@.contains_key(guild) ==> t is None,
            t matches Some(d) ==> d.wf(),
    {
        proof {
            use_type_invariant(self);
        }
        match self.entries.get(&guild) {
            Some(d) => Some(*d),
            None => None,
        }
    }

    /// Starts (or restarts) the timer of a guild at `now`, the first voice
    /// line `wait` seconds away.
    pub fn start_timer_given(&mut self, guild: u64, text_channel: u64, now: u64, wait: u64) -> (d:
        VoiceLineData)
        requires
            now <= LATEST_TIME,
            valid_wait(wait),
        ensures
            d == VoiceLineData::started(now, wait, text_channel),
            final(self)@ == old(self)@.insert(guild, d),
            timers_wf(final(self)@),
    {
        proof {
            use_type_invariant(&*self);
        }
        let d = VoiceLineData::start(now, wait, text_channel);
        let mut entries: HashMap<u64, VoiceLineData> = HashMap::new();
        std::mem::swap(&mut entries, &mut self.entries);
        let ghost before = entries@;
        entries.insert(guild, d);
        assert forall|g: u64| #[trigger] entries@.contains_key(g) implies entries@[g].wf() by {
            if g != guild {
                assert(before.contains_key(g));
            }
        }
        self.entries = entries;
        d
    }

    /// Starts (or restarts) the timer of a guild at `now`, drawing the wait
    /// before its first voice line at random.
    pub fn start_timer(&mut self, guild: u64, text_channel: u64, now: u64) -> (d: VoiceLineData)
        requires
            now <= LATEST_TIME,
        ensures
            exists|wait: u64| valid_wait(wait) && d == VoiceLineData::started(now, wait, text_channel),
            final(self)@ == old(self)@.insert(guild, d),
            timers_wf(final(self)@),
    {
        let (low, high) = wait_range();
        let wait = random_in_range(low, high);
        let d = self.start_timer_given(guild, text_channel, now, wait);
        assert(valid_wait(wait) && d == VoiceLineData::started(now, wait, text_channel));
        d
    }

    /// One pass over the timers at time `now`: every due voice line fires
    /// (drawing the wait before the next), the others are left as they are,
    /// and each guild is reported once, in the order the map walks them.
    /// Afterwards no timer is due at `now`.
    pub fn tick(&mut self, now: u64) -> (events: Vec<TickEvent>)
        requires
            now <= LATEST_TIME,
        ensures
            tick_outcome(old(self)@, final(self)@, now),
            timers_wf(old(self)@),
            timers_wf(final(self)@),
            forall|g: u64| #[trigger] final(self)@.contains_key(g) ==> !final(self)@[g].is_due_at(now),
            event_guilds(events@).no_duplicates(),
            event_guilds(events@).to_set() == old(self)@.dom(),
            forall|i: int|
                0 <= i < events.len() ==> event_agrees(
                    #[trigger] events@[i],
                    old(self)@,
                    final(self)@,
                    now,
                ),
    {
        proof {
            use_type_invariant(&*self);
        }
        let mut entries: HashMap<u64, VoiceLineData> = HashMap::new();
        std::mem::swap(&mut entries, &mut self.entries);
        let events = tick_timers(&mut entries, now);
        self.entries = entries;
        events
    }
}

/// The keys of the map, in the order it walks them.
fn guild_ids(entries: &HashMap<u64, VoiceLineData>) -> (ids: Vec<u64>)
    ensures
        ids@.no_duplicates(),
        ids@.to_set() == entries@.dom(),
{
    let mut ids: Vec<u64> = Vec::new();
    for k in it: entries.keys()
        invariant
            ids.len() == it.index(),
            forall|j: int| 0 <= j < ids.len() ==> ids@[j] == *it.seq()[j],
    {
        ids.push(*k);
    }
    assert(ids@ =~= entries.keys().remaining().unref());
    ids
}

/// One pass over the timers of the map at time `now`.
fn tick_timers(entries: &mut HashMap<u64, VoiceLineData>, now: u64) -> (events: Vec<TickEvent>)
    requires
        timers_wf(old(entries)@),
        now <= LATEST_TIME,
    ensures
        tick_outcome(old(entries)@, final(entries)@, now),
        timers_wf(final(entries)@),
        forall|g: u64| #[trigger] final(entries)@.contains_key(g) ==> !final(entries)@[g].is_due_at(now),
        event_guilds(events@).no_duplicates(),
        event_guilds(events@).to_set() == old(entries)@.dom(),
        forall|i: int|
            0 <= i < events.len() ==> event_agrees(
                #[trigger] events@[i],
                old(entries)@,
                final(entries)@,
                now,
            ),
{
    let ids = guild_ids(entries);
    let mut events: Vec<TickEvent> = Vec::new();
    let ghost before = entries@;
    for i in 0..ids.len()
        invariant
            before == old(entries)@,
            ids@.no_duplicates(),
            ids@.to_set() == before.dom(),
            entries@.dom() == before.dom(),
            timers_wf(entries@),
            now <= LATEST_TIME,
            events.len() == i,
            forall|j: int| 0 <= j < i ==> (#[trigger] events@[j]).guild() == ids@[j],
            forall|g: u64| #[trigger]
                before.contains_key(g) ==> {
                    &&& (ids@.take(i as int).contains(g) && before[g].is_due_at(now))
                        ==> exists|wait: u64|
                        valid_wait(wait) && entries@[g] == before[g].fired(now, wait)
                    &&& (ids@.take(i as int).contains(g) && !before[g].is_due_at(now))
                        ==> entries@[g] == before[g]
                    &&& !ids@.take(i as int).contains(g) ==> entries@[g] == before[g]
                },
            forall|j: int|
                0 <= j < i ==> event_agrees(#[trigger] events@[j], before, entries@, now),
    {
        let g = ids[i];
        let ghost prev = entries@;
        assert(ids@.to_set().contains(g));
        assert(!ids@.take(i as int).contains(g));
        let d = match entries.get(&g) {
            Some(d) => *d,
            None => {
                proof {
                    assert(false);
                }
                return events;
            },
        };
        if d.is_due(now) {
            let (low, high) = wait_range();
            let wait = random_in_range(low, high);
            let mut next = d;
            next.fire(now, wait);
            assert(valid_wait(wait) && next == d.fired(now, wait));
            entries.insert(g, next);
            assert(entries@[g] == before[g].fired(now, wait));
            assert(exists|w: u64| valid_wait(w) && entries@[g] == before[g].fired(now, w));
            events.push(TickEvent::Fired { guild: g, timer: next });
        } else {
            events.push(TickEvent::Waiting { guild: g, seconds_left: d.seconds_left(now) });
        }
        assert(ids@.take(i + 1) =~= ids@.take(i as int).push(g));
        assert forall|h: u64| #[trigger] before.contains_key(h) implies {
            &&& (ids@.take(i + 1).contains(h) && before[h].is_due_at(now)) ==> exists|wait: u64|
                valid_wait(wait) && entries@[h] == before[h].fired(now, wait)
            &&& (ids@.take(i + 1).contains(h) && !before[h].is_due_at(now)) ==> entries@[h]
                == before[h]
            &&& !ids@.take(i + 1).contains(h) ==> entries@[h] == before[h]
        } by {
            if h != g {
                assert(entries@[h] == prev[h]);
                assert(ids@.take(i + 1).contains(h) == ids@.take(i as int).contains(h));
                if ids@.take(i as int).contains(h) && before[h].is_due_at(now) {
                    let w = choose|wait: u64|
                        valid_wait(wait) && prev[h] == before[h].fired(now, wait);
                    assert(valid_wait(w) && entries@[h] == before[h].fired(now, w));
                }
            } else {
                assert(ids@.take(i + 1)[i as int] == g);
                assert(ids@.take(i + 1).contains(h));
            }
        }
    }
    assert(ids@.take(ids.len() as int) =~= ids@);
    assert forall|g: u64| #[trigger] before.contains_key(g) implies ids@.contains(g) by {
        assert(ids@.to_set().contains(g));
    }
    assert(event_guilds(events@) =~= ids@);
    events
}


} // verus!
