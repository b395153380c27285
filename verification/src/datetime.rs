//! Coarse human-readable calendar time.

use vstd::prelude::*;

verus! {

/// A calendar date and time, produced fresh on each query.
///
/// Every field is sized to its natural range; only the year needs more than a
/// byte. A value carries no identity beyond the call that produced it.
#[derive(Clone, Copy, Debug, PartialEq, Eq, Structural)]
pub struct DateTime {
    /// Seconds within the minute, `0..=59`.
    pub sec: u8,
    /// Minutes within the hour, `0..=59`.
    pub min: u8,
    /// Day of the month, `1..=31`.
    pub day: u8,
    /// Hours within the day, `0..=23`.
    pub hour: u8,
    /// Month of the year, `1..=12`.
    pub mon: u8,
    /// Calendar year.
    pub year: u64,
}

impl DateTime {
    /// The fields lie within their calendar ranges.
    pub open spec fn wf(self) -> bool {
        &&& self.sec < 60
        &&& self.min < 60
        &&& self.hour < 24
        &&& 1 <= self.day <= 31
        &&& 1 <= self.mon <= 12
    }

    /// Builds a calendar time from raw field values, rejecting any field that
    /// lies outside its calendar range.
    pub fn new(sec: u8, min: u8, hour: u8, day: u8, mon: u8, year: u64) -> (result: Option<
        DateTime,
    >)
        ensures
            match result {
                Some(dt) => {
                    &&& dt.wf()
                    &&& dt == (DateTime { sec, min, day, hour, mon, year })
                },
                None => !(DateTime { sec, min, day, hour, mon, year }).wf(),
            },
    {
        if sec < 60 && min < 60 && hour < 24 && 1 <= day && day <= 31 && 1 <= mon && mon <= 12 {
            Some(DateTime { sec, min, day, hour, mon, year })
        } else {
            None
        }
    }
}

/// The fixed calendar value reported on targets with no readable calendar
/// device.
pub open spec fn spec_placeholder_datetime() -> DateTime {
    DateTime { sec: 1, min: 1, day: 1, hour: 1, mon: 1, year: 1900 }
}

/// Returns the calendar time.
///
/// Targets without a calendar device wired in report a fixed placeholder
/// value; a host environment with a real-time clock supplies the live value
/// outside the verified boundary.
pub fn wallclock() -> (result: DateTime)
    ensures
        result == spec_placeholder_datetime(),
        result.wf(),
{
    DateTime { sec: 1, min: 1, day: 1, hour: 1, mon: 1, year: 1900 }
}

} // verus!
