//! The one place the library reads the wall clock: a trusted call into
//! chrono that hands back the local time as plain calendar fields.

use chrono::{Datelike, Timelike};
use vstd::prelude::*;

verus! {

/// A local calendar time, broken into plain fields.
#[derive(Debug, Clone, Copy)]
pub struct TimeParts {
    /// Calendar year (may precede the common era).
    pub year: i32,
    /// Month of the year, starting at 1.
    pub month: u32,
    /// Day of the month, starting at 1.
    pub day: u32,
    /// Hour of the day.
    pub hour: u32,
    /// Minute of the hour.
    pub minute: u32,
    /// Second of the minute.
    pub second: u32,
}

impl TimeParts {
    /// The ranges chrono documents for its calendar accessors.
    pub open spec fn wf(&self) -> bool {
        &&& 1 <= self.month <= 12
        &&& 1 <= self.day <= 31
        &&& self.hour <= 23
        &&& self.minute <= 59
        &&& self.second <= 59
    }
}

/// Relies on `chrono::Local::now` and the `Datelike`/`Timelike` accessors:
/// month is 1..=12, day 1..=31, hour 0..=23, minute and second 0..=59.
/// The value itself depends on the wall clock, so nothing more is promised.
#[verifier::external_body]
pub fn local_time_parts() -> (t: TimeParts)
    ensures
        t.wf(),
{
    let now = chrono::Local::now();
    TimeParts {
        year: now.year(),
        month: now.month(),
        day: now.day(),
        hour: now.hour(),
        minute: now.minute(),
        second: now.second(),
    }
}

} // verus!
