//! The day and the time of day of a meal, and how the store writes them.
//!
//! A meal row holds its date and time as text. The calendar itself is
//! chrono's: it decides which days exist, and it writes the text.

use crate::digits::{decimal, two_digits, zero_padded};
use vstd::prelude::*;

verus! {

/// The first year that the calendar reaches.
pub const MIN_YEAR: i32 = -262143;

/// The last year that the calendar reaches.
pub const MAX_YEAR: i32 = 262142;

/// Whether a year of the proleptic Gregorian calendar has a 29th of
/// February. Year 0 is the year before year 1.
pub open spec fn is_leap_year(year: int) -> bool {
    year % 4 == 0 && (year % 100 != 0 || year % 400 == 0)
}

/// The number of days of a month, 0 for a month that does not exist.
pub open spec fn days_in_month(year: int, month: int) -> int {
    if month == 2 {
        if is_leap_year(year) {
            29
        } else {
            28
        }
    } else if month == 4 || month == 6 || month == 9 || month == 11 {
        30
    } else if 1 <= month <= 12 {
        31
    } else {
        0
    }
}

/// Whether the day exists and lies within the calendar's reach.
pub open spec fn is_calendar_day(year: int, month: int, day: int) -> bool {
    MIN_YEAR <= year <= MAX_YEAR && 1 <= day <= days_in_month(year, month)
}

/// Whether the time of day exists, to the second.
pub open spec fn is_clock_time(hour: int, minute: int, second: int) -> bool {
    0 <= hour < 24 && 0 <= minute < 60 && 0 <= second < 60
}

/// A year as the store writes it: four digits from 0 to 9999, and a sign
/// before at least four digits outside of that.
pub open spec fn year_text(year: int) -> Seq<char> {
    if 0 <= year <= 9999 {
        two_digits(year / 100) + two_digits(year % 100)
    } else if year > 9999 {
        seq!['+'] + decimal(year as nat)
    } else {
        seq!['-'] + zero_padded(decimal((-year) as nat), 4)
    }
}

/// A day as the store writes it: year, month and day, with `-` between.
pub open spec fn date_text(year: int, month: int, day: int) -> Seq<char> {
    year_text(year) + seq!['-'] + two_digits(month) + seq!['-'] + two_digits(day)
}

/// A time of day as the store writes it: hour, minute and second in two
/// digits each, with `:` between.
pub open spec fn time_text(hour: int, minute: int, second: int) -> Seq<char> {
    two_digits(hour) + seq![':'] + two_digits(minute) + seq![':'] + two_digits(second)
}

/// Calls chrono's `NaiveDate::from_ymd_opt` and, on the date it makes, the
/// `to_string` of its `Display`.
///
/// Trusted: chrono makes a date exactly of the days that exist between its
/// first and last year, and writes a date as `date_text` says: the year in
/// four digits (signed, and as long as it needs, outside of 0 to 9999),
/// month and day in two, joined by `-`.
#[verifier::external_body]
fn written_date(year: i32, month: u32, day: u32) -> (text: Option<String>)
    ensures
        text is Some <==> is_calendar_day(year as int, month as int, day as int),
        text matches Some(t) ==> t@ == date_text(year as int, month as int, day as int),
{
    match chrono::NaiveDate::from_ymd_opt(year, month, day) {
        Some(date) => Some(date.to_string()),
        None => None,
    }
}

/// Calls chrono's `NaiveTime::from_hms_opt` and, on the time it makes, the
/// `to_string` of its `Display`.
///
/// Trusted: chrono makes a time exactly of an hour below 24 with minute and
/// second below 60, and writes a time without a fraction of a second as
/// `time_text` says: hour, minute and second in two digits, joined by `:`.
#[verifier::external_body]
fn written_time(hour: u32, minute: u32, second: u32) -> (text: Option<String>)
    ensures
        text is Some <==> is_clock_time(hour as int, minute as int, second as int),
        text matches Some(t) ==> t@ == time_text(hour as int, minute as int, second as int),
{
    match chrono::NaiveTime::from_hms_opt(hour, minute, second) {
        Some(time) => Some(time.to_string()),
        None => None,
    }
}

/// A day of the calendar.
#[derive(Clone, Copy, Debug, PartialEq, Eq)]
pub struct MealDate {
    year: i32,
    month: u32,
    day: u32,
}

impl MealDate {
    #[verifier::type_invariant]
    spec fn exists_in_calendar(self) -> bool {
        is_calendar_day(self.year as int, self.month as int, self.day as int)
    }

    pub closed spec fn spec_year(self) -> i32 {
        self.year
    }

    pub closed spec fn spec_month(self) -> u32 {
        self.month
    }

    pub closed spec fn spec_day(self) -> u32 {
        self.day
    }

    /// The day `year`-`month`-`day`, if the calendar has it.
    pub fn from_ymd(year: i32, month: u32, day: u32) -> (date: Option<MealDate>)
        ensures
            date is Some <==> is_calendar_day(year as int, month as int, day as int),
            date matches Some(d) ==> d.year() == year && d.month() == month && d.day() == day,
    {
        match written_date(year, month, day) {
            Some(_) => Some(MealDate { year, month, day }),
            None => None,
        }
    }

    #[verifier::when_used_as_spec(spec_year)]
    pub fn year(self) -> (year: i32)
        ensures
            year == self.spec_year(),
    {
        self.year
    }

    #[verifier::when_used_as_spec(spec_month)]
    pub fn month(self) -> (month: u32)
        ensures
            month == self.spec_month(),
    {
        self.month
    }

    #[verifier::when_used_as_spec(spec_day)]
    pub fn day(self) -> (day: u32)
        ensures
            day == self.spec_day(),
    {
        self.day
    }

    /// The day as the store writes it.
    pub fn text(&self) -> (text: String)
        ensures
            text@ == date_text(self.year() as int, self.month() as int, self.day() as int),
            is_calendar_day(self.year() as int, self.month() as int, self.day() as int),
    {
        proof {
            use_type_invariant(self);
        }
        match written_date(self.year, self.month, self.day) {
            Some(text) => text,
            None => String::new(),
        }
    }
}

/// A time of day, to the second.
#[derive(Clone, Copy, Debug, PartialEq, Eq)]
pub struct MealTime {
    hour: u32,
    minute: u32,
    second: u32,
}

impl MealTime {
    #[verifier::type_invariant]
    spec fn exists_on_clock(self) -> bool {
        is_clock_time(self.hour as int, self.minute as int, self.second as int)
    }

    pub closed spec fn spec_hour(self) -> u32 {
        self.hour
    }

    pub closed spec fn spec_minute(self) -> u32 {
        self.minute
    }

    pub closed spec fn spec_second(self) -> u32 {
        self.second
    }

    /// The time `hour`:`minute`:`second`, if the clock has it.
    pub fn from_hms(hour: u32, minute: u32, second: u32) -> (time: Option<MealTime>)
        ensures
            time is Some <==> is_clock_time(hour as int, minute as int, second as int),
            time matches Some(t) ==> t.hour() == hour && t.minute() == minute
                && t.second() == second,
    {
        match written_time(hour, minute, second) {
            Some(_) => Some(MealTime { hour, minute, second }),
            None => None,
        }
    }

    #[verifier::when_used_as_spec(spec_hour)]
    pub fn hour(self) -> (hour: u32)
        ensures
            hour == self.spec_hour(),
    {
        self.hour
    }

    #[verifier::when_used_as_spec(spec_minute)]
    pub fn minute(self) -> (minute: u32)
        ensures
            minute == self.spec_minute(),
    {
        self.minute
    }

    #[verifier::when_used_as_spec(spec_second)]
    pub fn second(self) -> (second: u32)
        ensures
            second == self.spec_second(),
    {
        self.second
    }

    /// The time as the store writes it.
    pub fn text(&self) -> (text: String)
        ensures
            text@ == time_text(self.hour() as int, self.minute() as int, self.second() as int),
            is_clock_time(self.hour() as int, self.minute() as int, self.second() as int),
    {
        proof {
            use_type_invariant(self);
        }
        match written_time(self.hour, self.minute, self.second) {
            Some(text) => text,
            None => String::new(),
        }
    }
}

} // verus!
