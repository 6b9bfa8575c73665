//! Wall-clock readings as the real-time clock reports them.

use vstd::prelude::*;

verus! {

/// One reading of the real-time clock, as calendar fields.
#[derive(Clone, Copy, Debug, PartialEq, Eq, Structural)]
pub struct ClockTime {
    pub year: i32,
    pub month: u32,
    pub day: u32,
    pub hour: u32,
    pub minute: u32,
    pub second: u32,
}

/// Whether `year` is a leap year of the proleptic Gregorian calendar.
pub open spec fn is_leap_year(year: int) -> bool {
    year % 4 == 0 && (year % 100 != 0 || year % 400 == 0)
}

/// The number of days of month `month` (January is 1) in `year`; 0 for a
/// number that names no month.
pub open spec fn days_in_month(year: int, month: int) -> int {
    if month == 2 {
        if is_leap_year(year) {
            29
        } else {
            28
        }
    } else if month == 4 || month == 6 || month == 9 || month == 11 {
        30
    } else if 1 <= month <= 12 {
        31
    } else {
        0
    }
}

/// Decides whether `year` is a leap year.
pub fn leap_year(year: i32) -> (leap: bool)
    ensures
        leap == is_leap_year(year as int),
{
    // A whole number of 400-year cycles lifts every year above zero and
    // leaves its remainders by 4, 100 and 400 as they were.
    let lifted: i64 = year as i64 + 2_147_484_000;
    assert(lifted % 400 == (year as int) % 400);
    assert(lifted % 100 == (year as int) % 100);
    assert(lifted % 4 == (year as int) % 4);
    lifted % 4 == 0 && (lifted % 100 != 0 || lifted % 400 == 0)
}

impl ClockTime {
    /// The fields name a day of the calendar and a second of that day.
    pub open spec fn is_valid(&self) -> bool {
        &&& 1 <= self.month <= 12
        &&& 1 <= self.day <= days_in_month(self.year as int, self.month as int)
        &&& self.hour < 24
        &&& self.minute < 60
        &&& self.second < 60
    }

    /// Checks that the fields name a day of the calendar and a second of it.
    pub fn check(&self) -> (ok: bool)
        ensures
            ok == self.is_valid(),
    {
        if self.month < 1 || self.month > 12 || self.hour >= 24 || self.minute >= 60
            || self.second >= 60 {
            return false;
        }
        let leap: bool = leap_year(self.year);
        let length: u32 = if self.month == 2 {
            if leap {
                29
            } else {
                28
            }
        } else if self.month == 4 || self.month == 6 || self.month == 9 || self.month == 11 {
            30
        } else {
            31
        };
        1 <= self.day && self.day <= length
    }
}

} // verus!
