//! The alarm scheduler: a two-state machine fed one clock sample per second.
//!
//! It detects the transition into a new minute (so the alarm match is
//! evaluated at most once per minute, however often samples arrive), matches
//! the current time against the active configuration, and owns the playback
//! lifecycle policy: at most one playback session is active at a time, an
//! alarm that matches while one is already sounding is ignored, and the
//! sounding state persists until an explicit stop (there is no auto-off).
//!
//! The surrounding program performs the actions this machine decides on
//! (starting and tearing down audio output) and reports a failed start back,
//! so the machine never claims to be sounding silently.

use vstd::prelude::*;
use crate::config::{Alarm, Config};
use crate::weekday::Weekday;

verus! {

/// One reading of the wall clock, at second resolution, as the scheduler and
/// the display consume it.
#[derive(Clone, Copy, PartialEq, Eq, Structural, Debug)]
pub struct ClockSample {
    pub hour: u8,
    pub minute: u8,
    pub second: u8,
    pub weekday: Weekday,
}

impl ClockSample {
    pub open spec fn wf(self) -> bool {
        self.hour < 24 && self.minute < 60 && self.second < 60
    }

    /// Build a sample, rejecting out-of-range fields.
    pub fn new(hour: u8, minute: u8, second: u8, weekday: Weekday) -> (r: Option<ClockSample>)
        ensures
            r is Some <==> hour < 24 && minute < 60 && second < 60,
            r matches Some(s) ==> s == (ClockSample { hour, minute, second, weekday }),
    {
        if hour < 24 && minute < 60 && second < 60 {
            Some(ClockSample { hour, minute, second, weekday })
        } else {
            None
        }
    }
}

/// Whether an alarm is sounding. `Sounding` is entered only on a
/// minute-boundary match and left only by an explicit stop (or a failed
/// playback start).
#[derive(Clone, Copy, PartialEq, Eq, Structural, Debug)]
pub enum PlayState {
    Idle,
    Sounding,
}

/// The sample introduces an (hour, minute) pair different from the last one
/// observed. Comparing the full pair, not the minute alone, handles the hour
/// and day rollover.
pub open spec fn minute_changed(prev_hour: u8, prev_minute: u8, s: ClockSample) -> bool {
    prev_hour != s.hour || prev_minute != s.minute
}

/// The alarm is due at this sample: the sample's weekday is one of the
/// alarm's recurrence days and the times of day coincide. An alarm with no
/// recurrence days never matches.
pub open spec fn alarm_matches(a: Alarm, s: ClockSample) -> bool {
    a.weekdays@.contains(s.weekday) && a.hour == s.hour && a.minute == s.minute
}

/// Some alarm of the list is due at this sample.
pub open spec fn any_alarm_matches(alarms: Seq<Alarm>, s: ClockSample) -> bool {
    exists|i: int| 0 <= i < alarms.len() && alarm_matches(#[trigger] alarms[i], s)
}

/// Some alarm of the configuration is due at this sample.
pub open spec fn config_matches(c: Config, s: ClockSample) -> bool {
    any_alarm_matches(c.alarms@, s)
}

/// Whether `alarm` is due at `sample`.
pub fn alarm_matches_now(alarm: &Alarm, sample: &ClockSample) -> (r: bool)
    ensures
        r == alarm_matches(*alarm, *sample),
{
    if !(alarm.hour == sample.hour && alarm.minute == sample.minute) {
        return false;
    }
    let mut k: usize = 0;
    while k < alarm.weekdays.len()
        invariant
            k <= alarm.weekdays@.len(),
            forall|j: int| 0 <= j < k ==> alarm.weekdays@[j] != sample.weekday,
            alarm.hour == sample.hour && alarm.minute == sample.minute,
        decreases alarm.weekdays@.len() - k,
    {
        if alarm.weekdays[k] == sample.weekday {
            return true;
        }
        k += 1;
    }
    assert(!alarm.weekdays@.contains(sample.weekday));
    false
}

/// Whether any alarm of the list is due at `sample`; the first match
/// short-circuits.
pub fn check_alarm(sample: &ClockSample, alarms: &Vec<Alarm>) -> (r: bool)
    ensures
        r == any_alarm_matches(alarms@, *sample),
{
    let mut i: usize = 0;
    while i < alarms.len()
        invariant
            i <= alarms@.len(),
            forall|j: int| 0 <= j < i ==> !alarm_matches(#[trigger] alarms@[j], *sample),
        decreases alarms@.len() - i,
    {
        if alarm_matches_now(&alarms[i], sample) {
            return true;
        }
        i += 1;
    }
    false
}

/// The scheduler state: the last observed (hour, minute), the active
/// configuration, and whether an alarm is sounding.
pub struct Scheduler {
    pub prev_hour: u8,
    pub prev_minute: u8,
    pub config: Config,
    pub state: PlayState,
}

impl Scheduler {
    pub open spec fn wf(self) -> bool {
        self.config.wf()
    }

    /// A sample makes this scheduler start playback: it is idle, the sample
    /// enters a new minute, and some alarm of the active configuration is
    /// due.
    pub open spec fn spec_starts(self, s: ClockSample) -> bool {
        self.state is Idle && minute_changed(self.prev_hour, self.prev_minute, s)
            && config_matches(self.config, s)
    }

    /// The scheduler after consuming one sample: the observed time advances,
    /// the configuration is untouched, and the state becomes `Sounding`
    /// exactly when the sample starts playback.
    pub open spec fn spec_after_sample(self, s: ClockSample) -> Scheduler {
        Scheduler {
            prev_hour: s.hour,
            prev_minute: s.minute,
            config: self.config,
            state: if self.spec_starts(s) {
                PlayState::Sounding
            } else {
                self.state
            },
        }
    }

    /// The scheduler after a stop: idle, with everything else untouched.
    pub open spec fn spec_stopped(self) -> Scheduler {
        Scheduler {
            prev_hour: self.prev_hour,
            prev_minute: self.prev_minute,
            config: self.config,
            state: PlayState::Idle,
        }
    }

    /// The scheduler after a configuration reload: the new configuration
    /// replaces the old wholesale; the observed time and the playback state
    /// are untouched.
    pub open spec fn spec_reloaded(self, c: Config) -> Scheduler {
        Scheduler {
            prev_hour: self.prev_hour,
            prev_minute: self.prev_minute,
            config: c,
            state: self.state,
        }
    }

    /// A fresh scheduler: idle, seeded with the time at startup, so the very
    /// first sample never spuriously reports a minute change against an
    /// uninitialized baseline.
    pub fn new(initial: ClockSample, config: Config) -> (r: Scheduler)
        requires
            config.wf(),
        ensures
            r.wf(),
            r.state is Idle,
            r.prev_hour == initial.hour,
            r.prev_minute == initial.minute,
            r.config == config,
    {
        Scheduler {
            prev_hour: initial.hour,
            prev_minute: initial.minute,
            config,
            state: PlayState::Idle,
        }
    }

    /// Consume one clock sample. Returns whether playback must start now:
    /// true exactly when the scheduler was idle, the sample enters a new
    /// minute, and some alarm of the active configuration is due. On true the
    /// scheduler is already `Sounding`; a caller whose playback start fails
    /// must report it with [`Scheduler::playback_failed`].
    pub fn on_sample(&mut self, s: ClockSample) -> (start: bool)
        requires
            old(self).wf(),
        ensures
            final(self).wf(),
            start == old(self).spec_starts(s),
            *final(self) == old(self).spec_after_sample(s),
    {
        let start = match self.state {
            PlayState::Idle => {
                let changed = self.prev_hour != s.hour || self.prev_minute != s.minute;
                changed && check_alarm(&s, &self.config.alarms)
            },
            PlayState::Sounding => false,
        };
        if start {
            self.state = PlayState::Sounding;
        }
        self.prev_hour = s.hour;
        self.prev_minute = s.minute;
        start
    }

    /// An explicit stop from the user: silence the alarm. While idle this is
    /// a no-op; no error either way.
    pub fn stop(&mut self)
        requires
            old(self).wf(),
        ensures
            final(self).wf(),
            *final(self) == old(self).spec_stopped(),
    {
        self.state = PlayState::Idle;
    }

    /// The playback start the scheduler asked for did not succeed: return to
    /// idle rather than claim to be sounding silently. The next
    /// minute-boundary evaluation retries naturally.
    pub fn playback_failed(&mut self)
        requires
            old(self).wf(),
        ensures
            final(self).wf(),
            *final(self) == old(self).spec_stopped(),
    {
        self.state = PlayState::Idle;
    }

    /// Replace the active configuration atomically. Does not itself start or
    /// stop playback; the new configuration takes effect from the next
    /// minute-boundary evaluation on.
    pub fn on_reload(&mut self, config: Config)
        requires
            old(self).wf(),
            config.wf(),
        ensures
            final(self).wf(),
            *final(self) == old(self).spec_reloaded(config),
    {
        self.config = config;
    }
}

/// How many of a run of samples, consumed in order by
/// [`Scheduler::on_sample`], start playback.
pub open spec fn start_count(sch: Scheduler, samples: Seq<ClockSample>) -> nat
    decreases samples.len(),
{
    if samples.len() == 0 {
        0
    } else {
        (if sch.spec_starts(samples[0]) {
            1nat
        } else {
            0nat
        }) + start_count(sch.spec_after_sample(samples[0]), samples.subrange(1, samples.len() as int))
    }
}

/// A scheduler that has already observed the common (hour, minute) pair of a
/// run of samples starts playback on none of them.
pub proof fn lemma_no_starts_after_baseline(sch: Scheduler, samples: Seq<ClockSample>, h: u8, m: u8)
    requires
        sch.prev_hour == h,
        sch.prev_minute == m,
        forall|i: int|
            0 <= i < samples.len() ==> (#[trigger] samples[i]).hour == h && samples[i].minute == m,
    ensures
        start_count(sch, samples) == 0,
    decreases samples.len(),
{
    if samples.len() > 0 {
        assert(!minute_changed(sch.prev_hour, sch.prev_minute, samples[0]));
        let rest = samples.subrange(1, samples.len() as int);
        assert(forall|i: int|
            0 <= i < rest.len() ==> (#[trigger] rest[i]).hour == h && rest[i].minute == m) by {
            assert(forall|i: int| 0 <= i < rest.len() ==> rest[i] == samples[i + 1]);
        }
        lemma_no_starts_after_baseline(sch.spec_after_sample(samples[0]), rest, h, m);
    }
}

/// Minute debounce: over any run of samples that all carry one and the same
/// (hour, minute) pair, at most one sample — the first to introduce that pair
/// — starts playback; every later sample of the run is ignored, however many
/// arrive within the minute.
pub proof fn lemma_minute_debounce(sch: Scheduler, samples: Seq<ClockSample>, h: u8, m: u8)
    requires
        forall|i: int|
            0 <= i < samples.len() ==> (#[trigger] samples[i]).hour == h && samples[i].minute == m,
    ensures
        start_count(sch, samples) <= 1,
{
    if samples.len() > 0 {
        let rest = samples.subrange(1, samples.len() as int);
        assert(forall|i: int|
            0 <= i < rest.len() ==> (#[trigger] rest[i]).hour == h && rest[i].minute == m) by {
            assert(forall|i: int| 0 <= i < rest.len() ==> rest[i] == samples[i + 1]);
        }
        lemma_no_starts_after_baseline(sch.spec_after_sample(samples[0]), rest, h, m);
    }
}

/// At most one playback session: while a session is active (`Sounding`), no
/// sample starts another one, so a second concurrent session is never
/// created.
pub proof fn lemma_no_start_while_sounding(sch: Scheduler, s: ClockSample)
    requires
        sch.state is Sounding,
    ensures
        !sch.spec_starts(s),
        sch.spec_after_sample(s).state is Sounding,
{
}

/// Stopping while idle is a no-op: it leaves the scheduler exactly as it
/// was, with no error.
pub proof fn lemma_stop_idle_noop(sch: Scheduler)
    requires
        sch.state is Idle,
    ensures
        sch.spec_stopped() == sch,
{
}

/// Idempotent stop: a second stop right after a first changes nothing beyond
/// the first transition.
pub proof fn lemma_stop_idempotent(sch: Scheduler)
    ensures
        sch.spec_stopped().spec_stopped() == sch.spec_stopped(),
{
}

/// Reload atomicity: an evaluation after a reload sees exactly the new
/// configuration — never a mixture of old and new — and the reload itself
/// touches neither the playback state nor the observed time.
pub proof fn lemma_reload_atomic(sch: Scheduler, c: Config, s: ClockSample)
    ensures
        sch.spec_reloaded(c).spec_starts(s) == (sch.state is Idle && minute_changed(
            sch.prev_hour,
            sch.prev_minute,
            s,
        ) && config_matches(c, s)),
        sch.spec_reloaded(c).state == sch.state,
        sch.spec_reloaded(c).prev_hour == sch.prev_hour,
        sch.spec_reloaded(c).prev_minute == sch.prev_minute,
{
}

} // verus!
