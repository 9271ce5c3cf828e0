//! The stopwatch that times the speech under way.
//!
//! Time is counted in nanoseconds. A clock reading is any `u64` that grows
//! with time; every operation that depends on the time exists in a form that
//! takes the reading as an argument, and in a form that reads the wall clock
//! itself.

use crate::clock::wall_clock_nanos;
use vstd::prelude::*;

verus! {

/// `a + b`, held at `u64::MAX`.
pub open spec fn capped_sum(a: u64, b: u64) -> u64 {
    if a + b > u64::MAX {
        u64::MAX
    } else {
        (a + b) as u64
    }
}

/// `later - earlier`, held at zero where the clock went backwards.
pub open spec fn time_between(earlier: u64, later: u64) -> u64 {
    if later >= earlier {
        (later - earlier) as u64
    } else {
        0
    }
}

/// A stopwatch: stopped or running, with the time accumulated so far.
#[derive(Clone, Copy, Debug, PartialEq, Eq, Structural)]
pub struct Timespan {
    /// Whether the stopwatch is counting.
    pub running: bool,
    /// Nanoseconds accumulated up to the last start.
    pub elapsed: u64,
    /// The clock reading at the last start; read only while running.
    pub started_at: u64,
}

impl Timespan {
    /// The stopwatch at rest with nothing accumulated.
    pub open spec fn zero() -> Timespan {
        Timespan { running: false, elapsed: 0, started_at: 0 }
    }

    /// The time shown when the clock reads `now`.
    pub open spec fn elapsed_when(self, now: u64) -> u64 {
        if self.running {
            capped_sum(self.elapsed, time_between(self.started_at, now))
        } else {
            self.elapsed
        }
    }

    /// The stopwatch after a stop at `now`: the time shown is frozen.
    pub open spec fn stopped_when(self, now: u64) -> Timespan {
        Timespan { running: false, elapsed: self.elapsed_when(now), started_at: self.started_at }
    }

    /// The stopwatch after the start/stop button was pressed at `now`.
    pub open spec fn toggled_when(self, now: u64) -> Timespan {
        if self.running {
            self.stopped_when(now)
        } else {
            Timespan { running: true, elapsed: self.elapsed, started_at: now }
        }
    }

    pub fn new() -> (t: Timespan)
        ensures
            t == Timespan::zero(),
    {
        Timespan { running: false, elapsed: 0, started_at: 0 }
    }

    pub fn is_running(&self) -> (r: bool)
        ensures
            r == self.running,
    {
        self.running
    }

    /// The time shown when the clock reads `now`.
    pub fn elapsed_at(&self, now: u64) -> (e: u64)
        ensures
            e == self.elapsed_when(now),
    {
        if self.running {
            let since_start: u64 = now.saturating_sub(self.started_at);
            self.elapsed.saturating_add(since_start)
        } else {
            self.elapsed
        }
    }

    /// Stops the stopwatch at `now`, keeping the time shown.
    pub fn stop_at(&mut self, now: u64)
        ensures
            *final(self) == old(self).stopped_when(now),
    {
        let shown: u64 = self.elapsed_at(now);
        self.elapsed = shown;
        self.running = false;
    }

    /// Starts a stopped stopwatch at `now`, stops a running one.
    pub fn start_or_stop_at(&mut self, now: u64)
        ensures
            *final(self) == old(self).toggled_when(now),
    {
        if self.running {
            self.stop_at(now);
        } else {
            self.started_at = now;
            self.running = true;
        }
    }

    /// Stops the stopwatch and clears the accumulated time.
    pub fn reset(&mut self)
        ensures
            *final(self) == Timespan::zero(),
    {
        self.running = false;
        self.elapsed = 0;
        self.started_at = 0;
    }

    /// The time shown now, by the wall clock. A stopped stopwatch shows its
    /// accumulated time; a running one shows what it would at some reading.
    pub fn elapsed(&self) -> (e: u64)
        ensures
            exists|now: u64| e == #[trigger] self.elapsed_when(now),
            !self.running ==> e == self.elapsed,
            e >= self.elapsed,
    {
        let now: u64 = wall_clock_nanos();
        let shown: u64 = self.elapsed_at(now);
        assert(shown == self.elapsed_when(now));
        shown
    }

    /// Stops the stopwatch now, by the wall clock.
    pub fn stop(&mut self)
        ensures
            exists|now: u64| *final(self) == #[trigger] old(self).stopped_when(now),
            !old(self).running ==> *final(self) == *old(self),
    {
        let now: u64 = wall_clock_nanos();
        self.stop_at(now);
        assert(*self == old(self).stopped_when(now));
    }

    /// Presses the start/stop button now, by the wall clock.
    pub fn start_or_stop(&mut self)
        ensures
            exists|now: u64| *final(self) == #[trigger] old(self).toggled_when(now),
            final(self).running == !old(self).running,
            final(self).elapsed >= old(self).elapsed,
    {
        let now: u64 = wall_clock_nanos();
        self.start_or_stop_at(now);
        assert(*self == old(self).toggled_when(now));
    }
}

/// After a reset the stopwatch shows zero, whatever the clock reads.
pub proof fn reset_shows_zero(now: u64)
    ensures
        Timespan::zero().elapsed_when(now) == 0,
        !Timespan::zero().running,
{
}

/// Pressing start/stop twice on a stopped stopwatch leaves it stopped, and
/// the time shown has grown by exactly the time between the two presses:
/// by nothing when both presses see the same clock reading.
pub proof fn toggle_twice_returns_to_stopped(t: Timespan, first: u64, second: u64)
    requires
        !t.running,
    ensures
        !t.toggled_when(first).toggled_when(second).running,
        t.toggled_when(first).toggled_when(second).elapsed == capped_sum(
            t.elapsed,
            time_between(first, second),
        ),
        first == second ==> t.toggled_when(first).toggled_when(second).elapsed == t.elapsed,
        t.elapsed <= t.toggled_when(first).toggled_when(second).elapsed <= t.elapsed
            + time_between(first, second),
{
}

/// The time shown never goes down as the clock advances.
pub proof fn elapsed_is_monotonic(t: Timespan, now: u64, later: u64)
    requires
        now <= later,
    ensures
        t.elapsed_when(now) <= t.elapsed_when(later),
{
}

/// Neither a stop nor a press of start/stop takes time off the stopwatch:
/// what it shows at any later reading is at least what it showed before.
pub proof fn only_reset_loses_time(t: Timespan, now: u64, later: u64)
    requires
        now <= later,
    ensures
        t.stopped_when(now).elapsed_when(later) == t.elapsed_when(now),
        t.toggled_when(now).elapsed_when(later) >= t.elapsed_when(now),
{
}

/// Stopping a stopped stopwatch changes nothing, so a second stop is idle.
pub proof fn stop_is_idempotent(t: Timespan, first: u64, second: u64)
    ensures
        t.stopped_when(first).stopped_when(second) == t.stopped_when(first),
        !t.running ==> t.stopped_when(first) == t,
{
}

} // verus!
