//! When the hourly trigger fires.

use vstd::prelude::*;
use crate::clock::ClockReading;

verus! {

/// One hour, in nanoseconds: the time between two firings.
pub const HOUR_NANOS: u64 = 3_600_000_000_000;

/// How long after the top of the hour the trigger fires, in nanoseconds:
/// half a second, so that a timer that runs a little early still fires in
/// the new hour.
pub const FIRING_OFFSET_NANOS: u64 = 500_000_000;

/// The nanoseconds that have passed of the running hour.
pub open spec fn into_hour(clock: ClockReading) -> int {
    (clock.minute * 60 + clock.second) * 1_000_000_000 + clock.nanos
}

/// The nanoseconds from the reading to the first firing: to the top of the
/// next hour and the offset beyond it. A reading taken in a leap second at
/// the very end of an hour may lie past that moment: the trigger then fires
/// at once.
pub open spec fn first_delay(clock: ClockReading) -> int {
    if HOUR_NANOS + FIRING_OFFSET_NANOS >= into_hour(clock) {
        HOUR_NANOS + FIRING_OFFSET_NANOS - into_hour(clock)
    } else {
        0
    }
}

/// The schedule of the hourly trigger, counted from the clock reading that
/// it was made from.
#[derive(Debug, Clone, Copy, PartialEq, Eq, Structural)]
pub struct HourSchedule {
    /// Nanoseconds until the first firing.
    pub first_delay_nanos: u64,
    /// Nanoseconds between one firing and the next.
    pub period_nanos: u64,
}

/// The schedule of a trigger that is armed at the given reading.
pub open spec fn schedule_of(clock: ClockReading) -> HourSchedule {
    HourSchedule { first_delay_nanos: first_delay(clock) as u64, period_nanos: HOUR_NANOS }
}

impl HourSchedule {
    /// Nanoseconds from the reading to firing number `n`, the first firing
    /// being number 0.
    pub open spec fn firing(&self, n: nat) -> int {
        self.first_delay_nanos + n * self.period_nanos
    }

    /// The schedule for a trigger armed at the given reading: it first fires
    /// half a second past the top of the next hour, then every hour.
    pub fn from_clock(clock: &ClockReading) -> (schedule: HourSchedule)
        requires
            clock.wf(),
        ensures
            schedule == schedule_of(*clock),
            schedule.first_delay_nanos == first_delay(*clock),
    {
        let seconds: u64 = clock.minute as u64 * 60 + clock.second as u64;
        let passed: u64 = seconds * 1_000_000_000 + clock.nanos as u64;
        let target: u64 = HOUR_NANOS + FIRING_OFFSET_NANOS;
        let first_delay_nanos: u64 = if target >= passed {
            target - passed
        } else {
            0
        };
        HourSchedule { first_delay_nanos, period_nanos: HOUR_NANOS }
    }
}

/// A trigger armed outside a leap second first fires half a second past the
/// top of the next hour: that is more than half a second and at most an hour
/// and a half second after the reading.
pub proof fn lemma_first_firing(clock: ClockReading)
    requires
        clock.wf(),
        clock.nanos < 1_000_000_000,
    ensures
        into_hour(clock) + schedule_of(clock).firing(0) == HOUR_NANOS + FIRING_OFFSET_NANOS,
        FIRING_OFFSET_NANOS < schedule_of(clock).firing(0) <= HOUR_NANOS + FIRING_OFFSET_NANOS,
{
}

/// Each firing comes exactly one hour after the one before.
pub proof fn lemma_firings_hourly(clock: ClockReading, n: nat)
    requires
        clock.wf(),
    ensures
        schedule_of(clock).firing(n + 1) - schedule_of(clock).firing(n) == HOUR_NANOS,
{
    let period = schedule_of(clock).period_nanos;
    assert((n + 1) * period == n * period + period) by (nonlinear_arith);
}

} // verus!
