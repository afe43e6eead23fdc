use vstd::prelude::*;

verus! {

/// Leap years of the proleptic Gregorian calendar.
pub open spec fn is_leap_year(year: int) -> bool {
    year % 4 == 0 && (year % 100 != 0 || year % 400 == 0)
}

/// Number of days of `month` (1 to 12) in `year`; 0 for any other month number.
pub open spec fn days_in_month(year: int, month: int) -> int {
    if month == 2 {
        if is_leap_year(year) {
            29
        } else {
            28
        }
    } else if month == 4 || month == 6 || month == 9 || month == 11 {
        30
    } else if 1 <= month <= 12 {
        31
    } else {
        0
    }
}

/// `year`-`month`-`day` names a day that exists in the calendar.
pub open spec fn is_calendar_date(year: int, month: int, day: int) -> bool {
    1 <= month <= 12 && 1 <= day <= days_in_month(year, month)
}

/// `hour`:`minute`:`second` names a moment on a 24-hour clock.
pub open spec fn is_clock_time(hour: int, minute: int, second: int) -> bool {
    0 <= hour < 24 && 0 <= minute < 60 && 0 <= second < 60
}

/// A calendar date.
#[derive(Clone, Copy, Debug, PartialEq, Eq, Structural)]
pub struct CaptureDate {
    pub year: i32,
    pub month: u8,
    pub day: u8,
}

/// A time of day, to the second.
#[derive(Clone, Copy, Debug, PartialEq, Eq, Structural)]
pub struct CaptureTime {
    pub hour: u8,
    pub minute: u8,
    pub second: u8,
}

/// Whether `year` is a leap year.
pub fn leap_year(year: i32) -> (b: bool)
    ensures
        b == is_leap_year(year as int),
{
    year % 4 == 0 && (year % 100 != 0 || year % 400 == 0)
}

/// Length of `month` in `year`, 0 when `month` is not a month number.
pub fn month_length(year: i32, month: u8) -> (n: u8)
    ensures
        n == days_in_month(year as int, month as int),
{
    if month == 2 {
        if leap_year(year) {
            29
        } else {
            28
        }
    } else if month == 4 || month == 6 || month == 9 || month == 11 {
        30
    } else if 1 <= month && month <= 12 {
        31
    } else {
        0
    }
}

impl CaptureDate {
    /// The date exists in the calendar.
    pub open spec fn is_valid(&self) -> bool {
        is_calendar_date(self.year as int, self.month as int, self.day as int)
    }

    /// The date with the given fields, if there is such a day.
    pub fn new(year: i32, month: u8, day: u8) -> (r: Option<CaptureDate>)
        ensures
            r == if is_calendar_date(year as int, month as int, day as int) {
                Some(CaptureDate { year, month, day })
            } else {
                None
            },
    {
        if 1 <= month && month <= 12 && 1 <= day && day <= month_length(year, month) {
            Some(CaptureDate { year, month, day })
        } else {
            None
        }
    }
}

impl CaptureTime {
    /// The time exists on a 24-hour clock.
    pub open spec fn is_valid(&self) -> bool {
        is_clock_time(self.hour as int, self.minute as int, self.second as int)
    }

    /// The time with the given fields, if each is in range.
    pub fn new(hour: u8, minute: u8, second: u8) -> (r: Option<CaptureTime>)
        ensures
            r == if is_clock_time(hour as int, minute as int, second as int) {
                Some(CaptureTime { hour, minute, second })
            } else {
                None
            },
    {
        if hour < 24 && minute < 60 && second < 60 {
            Some(CaptureTime { hour, minute, second })
        } else {
            None
        }
    }
}

} // verus!
