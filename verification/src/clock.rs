//! Local wall-clock time, and the name of a meeting that was given none.

use crate::text::{decimal, digit, joined};
use chrono::{Datelike, Timelike};
use vstd::prelude::*;

verus! {

/// A point in local civil time, to the second.
#[verifier::ext_equal]
pub struct CivilTime {
    pub year: int,
    pub month: int,
    pub day: int,
    pub hour: int,
    pub minute: int,
    pub second: int,
}

/// Leap years of the proleptic Gregorian calendar.
pub open spec fn is_leap_year(year: int) -> bool {
    year % 4 == 0 && (year % 100 != 0 || year % 400 == 0)
}

/// The number of days in a month of a year.
pub open spec fn days_in_month(year: int, month: int) -> int {
    if month == 2 {
        if is_leap_year(year) {
            29
        } else {
            28
        }
    } else if month == 4 || month == 6 || month == 9 || month == 11 {
        30
    } else {
        31
    }
}

/// The calendar has this date, and the date is within the supported years.
pub open spec fn date_exists(year: int, month: int, day: int) -> bool {
    -262143 <= year <= 262142 && 1 <= month <= 12 && 1 <= day <= days_in_month(year, month)
}

/// A number in decimal, with zeros in front up to two digits.
pub open spec fn two_digits(n: int) -> Seq<char> {
    seq![digit((n / 10) as nat), digit((n % 10) as nat)]
}

/// A number in decimal, with zeros in front up to four digits.
pub open spec fn four_digits(n: int) -> Seq<char> {
    if n >= 10000 {
        decimal(n as nat)
    } else {
        two_digits(n / 100) + two_digits(n % 100)
    }
}

/// A year with at least four digits; outside of 0 to 9999 it carries its sign.
pub open spec fn year_text(year: int) -> Seq<char> {
    if year < 0 {
        seq!['-'] + four_digits(-year)
    } else if year <= 9999 {
        four_digits(year)
    } else {
        seq!['+'] + four_digits(year)
    }
}

impl CivilTime {
    /// The date exists and the time of day is in range.
    pub open spec fn is_valid(self) -> bool {
        &&& date_exists(self.year, self.month, self.day)
        &&& 0 <= self.hour < 24
        &&& 0 <= self.minute < 60
        &&& 0 <= self.second < 60
    }

    /// `YYYY-MM-DD_HH-MM-SS`.
    pub open spec fn timestamp(self) -> Seq<char> {
        year_text(self.year) + seq!['-'] + two_digits(self.month) + seq!['-'] + two_digits(self.day)
            + seq!['_'] + two_digits(self.hour) + seq!['-'] + two_digits(self.minute) + seq!['-']
            + two_digits(self.second)
    }

    /// The name of a meeting that starts at this time.
    pub open spec fn meeting_name(self) -> Seq<char> {
        "Meeting "@ + self.timestamp()
    }
}

/// A local time that exists in the calendar.
#[derive(Clone, Copy, Debug, PartialEq, Eq)]
pub struct LocalTime {
    year: i32,
    month: u32,
    day: u32,
    hour: u32,
    minute: u32,
    second: u32,
}

impl View for LocalTime {
    type V = CivilTime;

    closed spec fn view(&self) -> CivilTime {
        CivilTime {
            year: self.year as int,
            month: self.month as int,
            day: self.day as int,
            hour: self.hour as int,
            minute: self.minute as int,
            second: self.second as int,
        }
    }
}

/// Whether the calendar has a date within the supported years.
fn calendar_has(year: i32, month: u32, day: u32) -> (has: bool)
    ensures
        has == date_exists(year as int, month as int, day as int),
{
    if year < -262143 || year > 262142 || month < 1 || month > 12 || day < 1 {
        return false;
    }
    let days: u32 = if month == 2 {
        // A multiple of a positive number is one whatever its sign.
        let years: i32 = if year < 0 {
            -year
        } else {
            year
        };
        if years % 4 == 0 && (years % 100 != 0 || years % 400 == 0) {
            29
        } else {
            28
        }
    } else if month == 4 || month == 6 || month == 9 || month == 11 {
        30
    } else {
        31
    };
    day <= days
}

/// `chrono::Local::now` and `DateTime::naive_local`: the machine's clock in the
/// machine's time zone. Whatever the clock says, the date is one that the calendar has and the time of day is
/// in range; which time it is depends on the machine and is left unsaid.
#[verifier::external_body]
fn read_clock() -> (now: (i32, u32, u32, u32, u32, u32))
    ensures
        date_exists(now.0 as int, now.1 as int, now.2 as int),
        now.3 < 24,
        now.4 < 60,
        now.5 < 60,
{
    let now = chrono::Local::now().naive_local();
    (now.year(), now.month(), now.day(), now.hour(), now.minute(), now.second())
}

/// `chrono::NaiveDateTime::format` with `%Y-%m-%d_%H-%M-%S`: the year with at
/// least four digits, signed outside of 0 to 9999, and every other field with two
/// digits.
#[verifier::external_body]
fn format_timestamp(
    year: i32,
    month: u32,
    day: u32,
    hour: u32,
    minute: u32,
    second: u32,
) -> (text: String)
    requires
        date_exists(year as int, month as int, day as int),
        hour < 24,
        minute < 60,
        second < 60,
    ensures
        text@ == (CivilTime {
            year: year as int,
            month: month as int,
            day: day as int,
            hour: hour as int,
            minute: minute as int,
            second: second as int,
        }).timestamp(),
{
    let date = chrono::NaiveDate::from_ymd_opt(year, month, day).unwrap();
    let time = date.and_hms_opt(hour, minute, second).unwrap();
    time.format("%Y-%m-%d_%H-%M-%S").to_string()
}

impl LocalTime {
    #[verifier::type_invariant]
    spec fn in_calendar(self) -> bool {
        self@.is_valid()
    }

    /// The given time, if it exists.
    pub fn new(year: i32, month: u32, day: u32, hour: u32, minute: u32, second: u32) -> (time:
        Option<LocalTime>)
        ensures
            ({
                let civil = CivilTime {
                    year: year as int,
                    month: month as int,
                    day: day as int,
                    hour: hour as int,
                    minute: minute as int,
                    second: second as int,
                };
                match time {
                    Some(t) => civil.is_valid() && t@ == civil,
                    None => !civil.is_valid(),
                }
            }),
    {
        if calendar_has(year, month, day) && hour < 24 && minute < 60 && second < 60 {
            Some(LocalTime { year, month, day, hour, minute, second })
        } else {
            None
        }
    }

    /// The current local time.
    pub fn now() -> (time: LocalTime)
        ensures
            time@.is_valid(),
    {
        let (year, month, day, hour, minute, second) = read_clock();
        LocalTime { year, month, day, hour, minute, second }
    }

    /// `YYYY-MM-DD_HH-MM-SS`.
    pub fn timestamp(&self) -> (text: String)
        ensures
            self@.is_valid(),
            text@ == self@.timestamp(),
    {
        proof {
            use_type_invariant(self);
        }
        format_timestamp(self.year, self.month, self.day, self.hour, self.minute, self.second)
    }
}

/// The name that a meeting goes by: the given one, or one made of the time at
/// which it starts.
pub open spec fn effective_name(given: Option<Seq<char>>, start: CivilTime) -> Seq<char> {
    match given {
        Some(name) => name,
        None => start.meeting_name(),
    }
}

/// The name of a meeting that starts at the given time: `given`, or `Meeting`
/// and the time.
pub fn effective_meeting_name(given: Option<&str>, start: &LocalTime) -> (name: String)
    ensures
        name@ == effective_name(
            match given {
                Some(text) => Some(text@),
                None => None,
            },
            start@,
        ),
{
    match given {
        Some(name) => name.to_owned(),
        None => joined("Meeting ", start.timestamp().as_str()),
    }
}

} // verus!
