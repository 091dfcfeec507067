//! One reading of the wall clock, as plain numbers.

use vstd::prelude::*;

verus! {

/// What one look at the clock shows: the moment in universal time, and the
/// fields of the same moment in the machine's local time.
#[derive(Debug, Clone, Copy, PartialEq, Eq, Structural)]
pub struct ClockReading {
    /// Milliseconds since the Unix epoch.
    pub utc_millis: i64,
    /// The local hour of the day.
    pub hour: u32,
    /// The local minute of the hour.
    pub minute: u32,
    /// The local second of the minute.
    pub second: u32,
    /// Nanoseconds into the second; a thousand million or more while a leap
    /// second is being counted.
    pub nanos: u32,
    /// The local hour of the day that it will be one hour from now.
    pub next_hour: u32,
}

impl ClockReading {
    /// Every field lies in the range of its unit.
    pub open spec fn wf(&self) -> bool {
        &&& self.hour < 24
        &&& self.minute < 60
        &&& self.second < 60
        &&& self.nanos < 2_000_000_000
        &&& self.next_hour < 24
    }

    /// Reads the clock now.
    pub fn now() -> (reading: ClockReading)
        ensures
            reading.wf(),
    {
        read_local_clock()
    }
}

/// Calls `chrono::Local::now`, adds `chrono::Duration::hours(1)` for the
/// next hour, and reads the fields with `timestamp_millis` and the methods
/// of `chrono::Timelike`. Trusted: the ranges that `Timelike` documents for
/// `hour`, `minute`, `second` and `nanosecond`. Which moment is read is not
/// stated.
#[verifier::external_body]
fn read_local_clock() -> (reading: ClockReading)
    ensures
        reading.wf(),
{
    let now = chrono::Local::now();
    let later = now + chrono::Duration::hours(1);
    ClockReading {
        utc_millis: now.timestamp_millis(),
        hour: chrono::Timelike::hour(&now),
        minute: chrono::Timelike::minute(&now),
        second: chrono::Timelike::second(&now),
        nanos: chrono::Timelike::nanosecond(&now),
        next_hour: chrono::Timelike::hour(&later),
    }
}

} // verus!
