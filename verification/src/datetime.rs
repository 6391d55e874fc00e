//! A calendar timestamp held as plain numbers.
//!
//! Deadline and completion annotations carry a date, or a date with a time of
//! day.  The timestamp is kept as its numeric components so that validity
//! (month in range, day in range for the month and year, time in range) is a
//! plain predicate over integers.

use vstd::prelude::*;

verus! {

/// A calendar date with a time of day, in the proleptic Gregorian calendar.
/// A bare date stands for midnight, the start of that day.
#[derive(Clone, Copy, Debug, PartialEq, Eq, Structural)]
pub struct DateTime {
    pub year: u16,
    pub month: u8,
    pub day: u8,
    pub hour: u8,
    pub minute: u8,
    pub second: u8,
}

/// Gregorian leap-year rule: every fourth year, except centuries not
/// divisible by 400.
pub open spec fn is_leap_year(y: int) -> bool {
    (y % 4 == 0 && y % 100 != 0) || y % 400 == 0
}

/// Number of days in month `m` of year `y`, for `1 <= m <= 12`.
pub open spec fn days_in_month(y: int, m: int) -> int {
    if m == 2 {
        if is_leap_year(y) {
            29
        } else {
            28
        }
    } else if m == 4 || m == 6 || m == 9 || m == 11 {
        30
    } else {
        31
    }
}

/// A valid calendar date with a four-digit year.
pub open spec fn valid_date(y: int, m: int, d: int) -> bool {
    0 <= y <= 9999 && 1 <= m <= 12 && 1 <= d <= days_in_month(y, m)
}

/// A valid time of day.
pub open spec fn valid_time(h: int, mi: int, s: int) -> bool {
    0 <= h < 24 && 0 <= mi < 60 && 0 <= s < 60
}

impl DateTime {
    /// All components in range: a timestamp that exists on the calendar.
    pub open spec fn valid(self) -> bool {
        valid_date(self.year as int, self.month as int, self.day as int)
            && valid_time(self.hour as int, self.minute as int, self.second as int)
    }

    /// Builds the timestamp if the components name a calendar date and a
    /// time of day, and returns nothing otherwise.
    pub fn new(year: u16, month: u8, day: u8, hour: u8, minute: u8, second: u8) -> (r: Option<
        DateTime,
    >)
        ensures
            ({
                let dt = DateTime { year, month, day, hour, minute, second };
                if dt.valid() {
                    r == Some(dt)
                } else {
                    r is None
                }
            }),
    {
        if year <= 9999 && 1 <= month && month <= 12 && 1 <= day
            && day <= days_in_month_count(year, month) && hour < 24 && minute < 60 && second < 60 {
            Some(DateTime { year, month, day, hour, minute, second })
        } else {
            None
        }
    }
}

/// Executable counterpart of [`days_in_month`].
pub fn days_in_month_count(y: u16, m: u8) -> (d: u8)
    requires
        1 <= m <= 12,
    ensures
        d as int == days_in_month(y as int, m as int),
{
    if m == 2 {
        if (y % 4 == 0 && y % 100 != 0) || y % 400 == 0 {
            29
        } else {
            28
        }
    } else if m == 4 || m == 6 || m == 9 || m == 11 {
        30
    } else {
        31
    }
}

} // verus!
