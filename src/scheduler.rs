//! The rotation scheduler: a state machine that the loop thread drives and
//! that other threads reconfigure, all under one lock held by the caller.
//!
//! The loop asks `poll` what to do at the current time. `Action::Rotate`
//! means: select and apply an image outside the lock, then report back with
//! `finish_rotation`. `Action::Wait` means: wait on the condition for at most
//! the given number of milliseconds, then poll again.
use vstd::prelude::*;
use crate::config::{
    interval_from_stored, interval_from_value, json_as_u64, stored_interval_spec, IntervalError,
    DEFAULT_INTERVAL_SECS,
};
use crate::rotation::RotationOutcome;

verus! {

/// Milliseconds in a second: the scheduler's clock counts milliseconds.
pub const MILLIS_PER_SEC: u64 = 1000;

/// Where the rotation loop stands.
#[derive(Debug, Clone, Copy, PartialEq, Eq, Structural)]
pub enum Phase {
    /// A rotation is due or under way.
    Rotating,
    /// Waiting until the clock reaches `deadline` (milliseconds) or a wake.
    Waiting { deadline: u64 },
}

/// What the loop thread is to do next.
#[derive(Debug, Clone, Copy, PartialEq, Eq, Structural)]
pub enum Action {
    /// Select and apply an image, then call `finish_rotation`.
    Rotate,
    /// Wait on the condition for at most this many milliseconds.
    Wait { timeout_ms: u64 },
}

/// The scheduler's state as seen by contracts.
pub struct SchedulerView {
    pub interval: u64,
    pub wake: bool,
    pub phase: Phase,
}

/// The shared state of the rotation loop: the interval in seconds, the wake
/// flag, and the loop's phase.
#[derive(Debug, Clone, Copy)]
pub struct Scheduler {
    interval: u64,
    wake: bool,
    phase: Phase,
}

impl View for Scheduler {
    type V = SchedulerView;

    closed spec fn view(&self) -> SchedulerView {
        SchedulerView { interval: self.interval, wake: self.wake, phase: self.phase }
    }
}

/// The interval is positive.
pub open spec fn well_formed(s: SchedulerView) -> bool {
    s.interval > 0
}

/// The clock value at which a wait that begins at `now` with an interval of
/// `secs` seconds ends, saturating at the clock's largest value.
pub open spec fn wait_deadline(now: u64, secs: u64) -> u64 {
    if now + secs * MILLIS_PER_SEC > u64::MAX {
        u64::MAX
    } else {
        (now + secs * MILLIS_PER_SEC) as u64
    }
}

/// The state right after start-up: a rotation is due at once.
pub open spec fn initial(secs: u64) -> SchedulerView {
    SchedulerView { interval: secs, wake: false, phase: Phase::Rotating }
}

/// The state after a successful reconfiguration to `secs` seconds.
pub open spec fn reconfigured(s: SchedulerView, secs: u64) -> SchedulerView {
    SchedulerView { interval: secs, wake: true, phase: s.phase }
}

/// The state and action that polling at clock value `now` gives.
pub open spec fn polled(s: SchedulerView, now: u64) -> (SchedulerView, Action) {
    match s.phase {
        Phase::Rotating => (s, Action::Rotate),
        Phase::Waiting { deadline } => {
            if s.wake {
                (SchedulerView { interval: s.interval, wake: false, phase: Phase::Rotating }, Action::Rotate)
            } else if now >= deadline {
                (SchedulerView { interval: s.interval, wake: false, phase: Phase::Rotating }, Action::Rotate)
            } else {
                (s, Action::Wait { timeout_ms: (deadline - now) as u64 })
            }
        },
    }
}

/// The state after a rotation ends at clock value `now`, whatever its outcome:
/// a wait of the current interval begins, and a pending wake is consumed,
/// since the wait already uses the interval that it announced.
pub open spec fn rotation_finished(s: SchedulerView, now: u64) -> SchedulerView {
    SchedulerView {
        interval: s.interval,
        wake: false,
        phase: Phase::Waiting { deadline: wait_deadline(now, s.interval) },
    }
}

/// The state after the reconfigurations in `requests` took the lock one after
/// another, in that order; refused (zero) requests change nothing.
pub open spec fn reconfigured_all(s: SchedulerView, requests: Seq<u64>) -> SchedulerView
    decreases requests.len(),
{
    if requests.len() == 0 {
        s
    } else {
        let prev = reconfigured_all(s, requests.drop_last());
        if requests.last() > 0 {
            reconfigured(prev, requests.last())
        } else {
            prev
        }
    }
}

fn deadline_after(now: u64, secs: u64) -> (r: u64)
    ensures
        r == wait_deadline(now, secs),
{
    match secs.checked_mul(MILLIS_PER_SEC) {
        Some(ms) => now.saturating_add(ms),
        None => {
            assert(now + secs * MILLIS_PER_SEC > u64::MAX) by (nonlinear_arith)
                requires
                    secs * MILLIS_PER_SEC > u64::MAX,
            ;
            u64::MAX
        },
    }
}

impl Scheduler {
    /// The scheduler at start-up, with the interval that the configuration
    /// store held (or the fallback): the first rotation is due at once.
    pub fn new(stored: Option<u64>) -> (r: Scheduler)
        ensures
            r@ == initial(stored_interval_spec(stored)),
            well_formed(r@),
    {
        Scheduler { interval: interval_from_stored(stored), wake: false, phase: Phase::Rotating }
    }

    /// The scheduler at start-up, with the interval read from the value that
    /// the configuration store held, if any (see `interval_from_value`).
    pub fn from_config(stored: Option<&serde_json::Value>) -> (r: Scheduler)
        ensures
            r@ == initial(r@.interval),
            well_formed(r@),
            stored is None ==> r@.interval == DEFAULT_INTERVAL_SECS,
            stored matches Some(v) ==> r@.interval == stored_interval_spec(json_as_u64(*v)),
    {
        Scheduler { interval: interval_from_value(stored), wake: false, phase: Phase::Rotating }
    }

    /// The current interval, in seconds.
    pub fn get_interval(&self) -> (r: u64)
        ensures
            r == self@.interval,
    {
        self.interval
    }

    /// The loop's phase.
    pub fn phase(&self) -> (r: Phase)
        ensures
            r == self@.phase,
    {
        self.phase
    }

    /// Whether a wake is pending.
    pub fn wake_pending(&self) -> (r: bool)
        ensures
            r == self@.wake,
    {
        self.wake
    }

    /// Replaces the interval and requests a wake, so that a wait in progress
    /// ends at once. A zero interval is refused and changes nothing.
    pub fn set_interval(&mut self, secs: u64) -> (r: Result<(), IntervalError>)
        ensures
            secs > 0 ==> r is Ok && final(self)@ == reconfigured(old(self)@, secs),
            secs == 0 ==> r == Err::<(), IntervalError>(IntervalError::NonPositive)
                && final(self)@ == old(self)@,
            well_formed(old(self)@) ==> well_formed(final(self)@),
    {
        if secs == 0 {
            return Err(IntervalError::NonPositive);
        }
        self.interval = secs;
        self.wake = true;
        Ok(())
    }

    /// Decides what the loop does at clock value `now` (milliseconds). A
    /// pending wake ends a wait at once and is consumed; a wait ends when the
    /// clock reaches its deadline; otherwise the loop waits for the rest.
    pub fn poll(&mut self, now: u64) -> (r: Action)
        ensures
            (final(self)@, r) == polled(old(self)@, now),
    {
        match self.phase {
            Phase::Rotating => Action::Rotate,
            Phase::Waiting { deadline } => {
                if self.wake || now >= deadline {
                    self.wake = false;
                    self.phase = Phase::Rotating;
                    Action::Rotate
                } else {
                    Action::Wait { timeout_ms: deadline - now }
                }
            },
        }
    }

    /// Records that a rotation ended at clock value `now`, with any outcome, a
    /// failed one included: the next wait lasts the full current interval.
    pub fn finish_rotation(&mut self, now: u64, _outcome: &RotationOutcome)
        ensures
            final(self)@ == rotation_finished(old(self)@, now),
    {
        let deadline = deadline_after(now, self.interval);
        self.wake = false;
        self.phase = Phase::Waiting { deadline };
    }
}

} // verus!
