use vstd::prelude::*;

use crate::error::{is_bad_request, AppError, AppResult};

verus! {

/// A calendar date of the proleptic Gregorian calendar.
#[derive(Debug, Clone, Copy, PartialEq, Eq, Hash, Structural)]
pub struct CalendarDate {
    pub year: i32,
    pub month: u8,
    pub day: u8,
}

/// A time of day, to the second.
#[derive(Debug, Clone, Copy, PartialEq, Eq, Hash, Structural)]
pub struct TimeOfDay {
    pub hour: u8,
    pub minute: u8,
    pub second: u8,
}

/// A day of the week.
#[derive(Debug, Clone, Copy, PartialEq, Eq, Hash, Structural)]
pub enum Weekday {
    Sunday,
    Monday,
    Tuesday,
    Wednesday,
    Thursday,
    Friday,
    Saturday,
}

pub open spec fn is_leap_year(y: int) -> bool {
    y % 4 == 0 && (y % 100 != 0 || y % 400 == 0)
}

pub open spec fn days_in_month(y: int, m: int) -> int {
    if m == 2 {
        if is_leap_year(y) {
            29
        } else {
            28
        }
    } else if m == 4 || m == 6 || m == 9 || m == 11 {
        30
    } else {
        31
    }
}

/// A date that exists in the calendar.
pub open spec fn valid_date(d: CalendarDate) -> bool {
    1 <= d.month <= 12 && 1 <= d.day <= days_in_month(d.year as int, d.month as int)
}

/// A time of day on a 24-hour clock.
pub open spec fn valid_time(t: TimeOfDay) -> bool {
    t.hour < 24 && t.minute < 60 && t.second < 60
}

/// Days from 1970-01-01 to `d`.
pub open spec fn days_from_epoch(d: CalendarDate) -> int {
    let y = if d.month <= 2 { d.year - 1 } else { d.year as int };
    let m = if d.month <= 2 { d.month + 9 } else { d.month - 3 };
    365 * y + y / 4 - y / 100 + y / 400 + (153 * m + 2) / 5 + d.day - 1 - 719468
}

/// The weekday of a date (1970-01-01 was a Thursday).
pub open spec fn weekday_of(d: CalendarDate) -> Weekday {
    let n = (days_from_epoch(d) + 4) % 7;
    if n == 0 {
        Weekday::Sunday
    } else if n == 1 {
        Weekday::Monday
    } else if n == 2 {
        Weekday::Tuesday
    } else if n == 3 {
        Weekday::Wednesday
    } else if n == 4 {
        Weekday::Thursday
    } else if n == 5 {
        Weekday::Friday
    } else {
        Weekday::Saturday
    }
}

/// Whether date `a` comes strictly before date `b`.
pub open spec fn date_before(a: CalendarDate, b: CalendarDate) -> bool {
    a.year < b.year || (a.year == b.year && (a.month < b.month || (a.month == b.month && a.day
        < b.day)))
}

/// Whether date `a` comes strictly before date `b`.
pub fn date_is_before(a: CalendarDate, b: CalendarDate) -> (r: bool)
    ensures
        r == date_before(a, b),
{
    a.year < b.year || (a.year == b.year && (a.month < b.month || (a.month == b.month && a.day
        < b.day)))
}

/// Seconds since midnight.
pub open spec fn seconds_of(t: TimeOfDay) -> int {
    t.hour * 3600 + t.minute * 60 + t.second
}

/// Whether `a` comes strictly before `b` in the day.
pub open spec fn time_before(a: TimeOfDay, b: TimeOfDay) -> bool {
    a.hour < b.hour || (a.hour == b.hour && (a.minute < b.minute || (a.minute == b.minute
        && a.second < b.second)))
}

/// What the date parser makes of `text` under the format description `layout`.
pub uninterp spec fn date_parse_of(text: Seq<char>, layout: Seq<char>) -> Option<CalendarDate>;

/// What the time parser makes of `text` under the format description `layout`.
pub uninterp spec fn time_parse_of(text: Seq<char>, layout: Seq<char>) -> Option<TimeOfDay>;

/// Relies on time::format_description::parse and time::Date::parse: the
/// date that `text` spells in the format `layout`, if any. A `time::Date`
/// always holds an existing calendar date.
#[verifier::external_body]
fn parse_date_with(text: &str, layout: &str) -> (r: Option<CalendarDate>)
    ensures
        r == date_parse_of(text@, layout@),
        r matches Some(d) ==> valid_date(d),
{
    let items = match time::format_description::parse(layout) {
        Ok(items) => items,
        Err(_) => return None,
    };
    match time::Date::parse(text, &items) {
        Ok(d) => Some(CalendarDate { year: d.year(), month: d.month() as u8, day: d.day() }),
        Err(_) => None,
    }
}

/// Relies on time::format_description::parse and time::Time::parse: the
/// time of day that `text` spells in the format `layout`, if any. A
/// `time::Time` always holds hours below 24, minutes and seconds below 60.
#[verifier::external_body]
fn parse_time_with(text: &str, layout: &str) -> (r: Option<TimeOfDay>)
    ensures
        r == time_parse_of(text@, layout@),
        r matches Some(t) ==> valid_time(t),
{
    let items = match time::format_description::parse(layout) {
        Ok(items) => items,
        Err(_) => return None,
    };
    match time::Time::parse(text, &items) {
        Ok(t) => Some(TimeOfDay { hour: t.hour(), minute: t.minute(), second: t.second() }),
        Err(_) => None,
    }
}

/// Relies on time::Date::from_calendar_date, time::Date::weekday and
/// time::Weekday::number_days_from_sunday: the weekday of an existing date
/// within the years -9999 to 9999, counted from Sunday (0); a date that
/// `time` cannot represent gives `None`.
#[verifier::external_body]
fn weekday_number_with(d: CalendarDate) -> (r: Option<u8>)
    ensures
        r matches Some(n) ==> n as i32 == weekday_number(weekday_of(d)),
        valid_date(d) && -9999 <= d.year <= 9999 ==> r is Some,
{
    let month = match time::Month::try_from(d.month) {
        Ok(m) => m,
        Err(_) => return None,
    };
    match time::Date::from_calendar_date(d.year, month, d.day) {
        Ok(date) => Some(date.weekday().number_days_from_sunday()),
        Err(_) => None,
    }
}

/// The format of dates: `YYYY-MM-DD`.
pub open spec fn date_layout() -> Seq<char> {
    "[year]-[month]-[day]"@
}

/// The format of times with seconds: `HH:MM:SS`.
pub open spec fn hms_layout() -> Seq<char> {
    "[hour]:[minute]:[second]"@
}

/// The format of times without seconds: `HH:MM`.
pub open spec fn hm_layout() -> Seq<char> {
    "[hour]:[minute]"@
}

/// The time that `text` spells as `HH:MM:SS`, or else as `HH:MM`.
pub open spec fn time_text_of(text: Seq<char>) -> Option<TimeOfDay> {
    match time_parse_of(text, hms_layout()) {
        Some(t) => Some(t),
        None => time_parse_of(text, hm_layout()),
    }
}

/// Parses a `YYYY-MM-DD` date; anything else is `BadRequest`.
pub fn parse_date(value: &str) -> (r: AppResult<CalendarDate>)
    ensures
        date_parse_of(value@, date_layout()) matches Some(d) ==> r == Ok::<CalendarDate, AppError>(d),
        date_parse_of(value@, date_layout()) is None ==> is_bad_request(r),
        r matches Ok(d) ==> valid_date(d),
{
    match parse_date_with(value, "[year]-[month]-[day]") {
        Some(d) => Ok(d),
        None => Err(AppError::BadRequest("date must be in YYYY-MM-DD format".to_string())),
    }
}

/// Parses an `HH:MM:SS` or `HH:MM` time; anything else is `BadRequest`.
pub fn parse_time(value: &str) -> (r: AppResult<TimeOfDay>)
    ensures
        time_text_of(value@) matches Some(t) ==> r == Ok::<TimeOfDay, AppError>(t),
        time_text_of(value@) is None ==> is_bad_request(r),
        r matches Ok(t) ==> valid_time(t),
{
    match parse_time_with(value, "[hour]:[minute]:[second]") {
        Some(t) => Ok(t),
        None => match parse_time_with(value, "[hour]:[minute]") {
            Some(t) => Ok(t),
            None => Err(AppError::BadRequest("time must be in HH:MM or HH:MM:SS format".to_string())),
        },
    }
}

/// Whether `a` comes strictly before `b` in the day.
pub fn is_before(a: TimeOfDay, b: TimeOfDay) -> (r: bool)
    ensures
        r == time_before(a, b),
{
    a.hour < b.hour || (a.hour == b.hour && (a.minute < b.minute || (a.minute == b.minute
        && a.second < b.second)))
}

/// The stored number of a weekday: Sunday is 0, Saturday 6.
pub open spec fn weekday_number(w: Weekday) -> i32 {
    match w {
        Weekday::Sunday => 0,
        Weekday::Monday => 1,
        Weekday::Tuesday => 2,
        Weekday::Wednesday => 3,
        Weekday::Thursday => 4,
        Weekday::Friday => 5,
        Weekday::Saturday => 6,
    }
}

/// The stored number of a weekday: Sunday is 0, Saturday 6.
pub fn weekday_to_i32(weekday: Weekday) -> (r: i32)
    ensures
        r == weekday_number(weekday),
        0 <= r <= 6,
{
    match weekday {
        Weekday::Sunday => 0,
        Weekday::Monday => 1,
        Weekday::Tuesday => 2,
        Weekday::Wednesday => 3,
        Weekday::Thursday => 4,
        Weekday::Friday => 5,
        Weekday::Saturday => 6,
    }
}

/// The weekday of a date, if the date lies in the representable range.
pub fn weekday_of_date(d: CalendarDate) -> (r: Option<Weekday>)
    ensures
        r matches Some(w) ==> w == weekday_of(d),
        valid_date(d) && -9999 <= d.year <= 9999 ==> r is Some,
{
    match weekday_number_with(d) {
        Some(0) => Some(Weekday::Sunday),
        Some(1) => Some(Weekday::Monday),
        Some(2) => Some(Weekday::Tuesday),
        Some(3) => Some(Weekday::Wednesday),
        Some(4) => Some(Weekday::Thursday),
        Some(5) => Some(Weekday::Friday),
        Some(_) => Some(Weekday::Saturday),
        None => None,
    }
}

} // verus!
