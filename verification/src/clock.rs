//! Reading the local wall clock.
//!
//! The wall clock is consulted only to stamp segment file names. The reading
//! itself is nondeterministic, so the trusted call states only what holds of
//! every outcome: the documented ranges of each calendar field. Everything
//! computed from a reading is done by verified code that takes the reading
//! as an argument.

use vstd::prelude::*;

verus! {

/// One raw reading of the local wall clock, split into calendar fields.
#[derive(Clone, Copy)]
pub struct ClockReading {
    pub year: i32,
    pub month: u32,
    pub day: u32,
    pub hour: u32,
    pub minute: u32,
    pub second: u32,
}

impl ClockReading {
    /// The documented ranges of the calendar fields other than the year,
    /// which is unbounded.
    pub open spec fn in_range(self) -> bool {
        &&& 1 <= self.month <= 12
        &&& 1 <= self.day <= 31
        &&& self.hour <= 23
        &&& self.minute <= 59
        &&& self.second <= 59
    }
}

/// Relies on chrono::Local::now and the chrono::Datelike / chrono::Timelike
/// accessors for the current local calendar date and time of day. chrono
/// documents month as 1 to 12, day as 1 to 31, hour as 0 to 23, and minute
/// and second as 0 to 59; the year is unbounded. Nothing more can be said of
/// a clock reading: it differs from call to call.
#[verifier::external_body]
pub fn local_clock() -> (c: ClockReading)
    ensures
        c.in_range(),
{
    let now = chrono::Local::now();
    ClockReading {
        year: chrono::Datelike::year(&now),
        month: chrono::Datelike::month(&now),
        day: chrono::Datelike::day(&now),
        hour: chrono::Timelike::hour(&now),
        minute: chrono::Timelike::minute(&now),
        second: chrono::Timelike::second(&now),
    }
}

} // verus!
