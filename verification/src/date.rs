//! Calendar dates, times of day and local date-times as plain values.
//!
//! Day arithmetic, text formats and the machine's time zone are left to
//! `chrono`; this module states what it relies on from each call.

use vstd::prelude::*;
use vstd::string::*;
use crate::text::{decimal_text, lowercase_of, push_decimal, push_signed, signed_text, str_to_lowercase};
use chrono::{Datelike, FixedOffset, Local, NaiveDate, NaiveTime, TimeDelta, TimeZone, Timelike};

verus! {

/// The earliest year the calendar represents.
pub const MIN_YEAR: i32 = -262_143;

/// The latest year the calendar represents.
pub const MAX_YEAR: i32 = 262_142;

/// Leap years of the proleptic Gregorian calendar.
pub open spec fn is_leap_year(year: int) -> bool {
    year % 4 == 0 && (year % 100 != 0 || year % 400 == 0)
}

/// Number of days of a month, for `month` in 1..=12.
pub open spec fn days_in_month(year: int, month: int) -> int {
    if month == 2 {
        if is_leap_year(year) {
            29
        } else {
            28
        }
    } else if month == 4 || month == 6 || month == 9 || month == 11 {
        30
    } else {
        31
    }
}

/// Year, month and day name a day of the calendar.
pub open spec fn valid_ymd(year: int, month: int, day: int) -> bool {
    &&& MIN_YEAR <= year <= MAX_YEAR
    &&& 1 <= month <= 12
    &&& 1 <= day <= days_in_month(year, month)
}

/// A calendar date.
#[derive(Debug, Clone, Copy, PartialEq, Eq, Structural, Hash)]
pub struct Date {
    pub year: i32,
    pub month: u32,
    pub day: u32,
}

/// A time of day, to the second.
#[derive(Debug, Clone, Copy, PartialEq, Eq, Structural, Hash)]
pub struct TimeOfDay {
    pub hour: u32,
    pub minute: u32,
    pub second: u32,
}

/// A date and time on the local wall clock together with the offset from
/// UTC, in seconds east, that was in force then.
#[derive(Debug, Clone, Copy, PartialEq, Eq, Structural, Hash)]
pub struct LocalDateTime {
    pub date: Date,
    pub time: TimeOfDay,
    pub utc_offset: i32,
}

/// What `NaiveTime::parse_from_str` reads from `text` under `format`:
/// hour, minute and second, or nothing where the text does not fit.
pub uninterp spec fn parsed_time(text: Seq<char>, format: Seq<char>) -> Option<(u32, u32, u32)>;

/// What `NaiveDate::parse_from_str` reads from `text` under `format`:
/// year, month and day, or nothing where the text does not fit.
pub uninterp spec fn parsed_date(text: Seq<char>, format: Seq<char>) -> Option<(i32, u32, u32)>;

/// The RFC 3339 text that `DateTime::to_rfc3339` writes for a wall-clock
/// date-time at a fixed offset, or nothing where the numbers name no such
/// date-time or offset, or the instant lies outside the calendar.
pub uninterp spec fn rfc3339_text(
    year: i32,
    month: u32,
    day: u32,
    hour: u32,
    minute: u32,
    second: u32,
    utc_offset: i32,
) -> Option<Seq<char>>;

/// The abbreviated English name of a month.
pub open spec fn month_abbreviation(month: int) -> Seq<char> {
    if month == 1 {
        "Jan"@
    } else if month == 2 {
        "Feb"@
    } else if month == 3 {
        "Mar"@
    } else if month == 4 {
        "Apr"@
    } else if month == 5 {
        "May"@
    } else if month == 6 {
        "Jun"@
    } else if month == 7 {
        "Jul"@
    } else if month == 8 {
        "Aug"@
    } else if month == 9 {
        "Sep"@
    } else if month == 10 {
        "Oct"@
    } else if month == 11 {
        "Nov"@
    } else {
        "Dec"@
    }
}

/// The time that three parsed numbers stand for.
pub open spec fn time_of_parts(parts: Option<(u32, u32, u32)>) -> Option<TimeOfDay> {
    match parts {
        Some((hour, minute, second)) => Some(TimeOfDay { hour, minute, second }),
        None => None,
    }
}

/// The date that three parsed numbers stand for.
pub open spec fn date_of_parts(parts: Option<(i32, u32, u32)>) -> Option<Date> {
    match parts {
        Some((year, month, day)) => Some(Date { year, month, day }),
        None => None,
    }
}

/// Calls `NaiveDate::checked_add_signed` with a whole number of days. The
/// result is the date that many days later, or nothing once the calendar's
/// last day is passed.
#[verifier::external_body]
pub(crate) fn date_plus_days(date: Date, days: u32) -> (r: Option<Date>)
    requires
        date.wf(),
    ensures
        r == date.plus_days(days as nat),
{
    NaiveDate::from_ymd_opt(date.year, date.month, date.day)?
        .checked_add_signed(TimeDelta::days(i64::from(days)))
        .map(|d| Date { year: d.year(), month: d.month(), day: d.day() })
}

/// Calls `NaiveDate::checked_sub_signed` with a whole number of days. The
/// result is the date that many days earlier, or nothing once the
/// calendar's first day is passed.
#[verifier::external_body]
pub(crate) fn date_minus_days(date: Date, days: u32) -> (r: Option<Date>)
    requires
        date.wf(),
    ensures
        r == date.minus_days(days as nat),
{
    NaiveDate::from_ymd_opt(date.year, date.month, date.day)?
        .checked_sub_signed(TimeDelta::days(i64::from(days)))
        .map(|d| Date { year: d.year(), month: d.month(), day: d.day() })
}

/// Calls `NaiveDate::parse_from_str`. The contract names the result and
/// adds that a date read this way is a day of the calendar.
#[verifier::external_body]
pub(crate) fn date_from_format(text: &str, format: &str) -> (r: Option<Date>)
    ensures
        r == date_of_parts(parsed_date(text@, format@)),
        r matches Some(d) ==> d.wf(),
{
    NaiveDate::parse_from_str(text, format).ok().map(
        |d| Date { year: d.year(), month: d.month(), day: d.day() },
    )
}

/// A format that names an hour and a minute and no second: the three
/// under which times of day are read.
pub open spec fn names_no_second(format: Seq<char>) -> bool {
    format == "%l:%M%P"@ || format == "%I:%M%P"@ || format == "%H:%M"@
}

/// Calls `NaiveTime::parse_from_str`. The contract names the result and
/// adds that hour, minute and second are within their ranges, and that
/// the second is 0 under a format that names none.
#[verifier::external_body]
pub(crate) fn time_from_format(text: &str, format: &str) -> (r: Option<TimeOfDay>)
    ensures
        r == time_of_parts(parsed_time(text@, format@)),
        r matches Some(t) ==> t.wf(),
        r matches Some(t) ==> names_no_second(format@) ==> t.second == 0,
{
    NaiveTime::parse_from_str(text, format).ok().map(
        |t| TimeOfDay { hour: t.hour(), minute: t.minute(), second: t.second() },
    )
}

/// Calls `Local.from_local_datetime(..).single()`: the offset from UTC of
/// a wall-clock time in the machine's time zone, where exactly one
/// applies. Which offset comes back depends on the machine; only its range
/// is promised.
#[verifier::external_body]
pub(crate) fn local_offset_at(date: Date, time: TimeOfDay) -> (r: Option<i32>)
    requires
        date.wf(),
        time.wf(),
    ensures
        r matches Some(offset) ==> -86_400 < offset < 86_400,
{
    let naive = NaiveDate::from_ymd_opt(date.year, date.month, date.day)?.and_hms_opt(
        time.hour,
        time.minute,
        time.second,
    )?;
    Local.from_local_datetime(&naive).single().map(|at| at.offset().local_minus_utc())
}

/// Calls `Local.from_utc_datetime`: the offset from UTC that the machine's
/// time zone has at the instant that the given date and time name when
/// they are read as UTC. Which offset comes back depends on the machine;
/// only its range is promised.
#[verifier::external_body]
pub(crate) fn local_offset_at_utc(date: Date, time: TimeOfDay) -> (r: Option<i32>)
    requires
        date.wf(),
        time.wf(),
    ensures
        r matches Some(offset) ==> -86_400 < offset < 86_400,
{
    let naive = NaiveDate::from_ymd_opt(date.year, date.month, date.day)?.and_hms_opt(
        time.hour,
        time.minute,
        time.second,
    )?;
    Some(Local.from_utc_datetime(&naive).offset().local_minus_utc())
}

/// Calls `DateTime::to_rfc3339` on the instant that a wall-clock time and
/// a fixed offset describe, where they describe one. The contract only
/// names the text.
#[verifier::external_body]
pub(crate) fn rfc3339_of(at: &LocalDateTime) -> (r: Option<String>)
    ensures
        r is Some <==> rfc3339_text(
            at.date.year,
            at.date.month,
            at.date.day,
            at.time.hour,
            at.time.minute,
            at.time.second,
            at.utc_offset,
        ) is Some,
        r matches Some(s) ==> rfc3339_text(
            at.date.year,
            at.date.month,
            at.date.day,
            at.time.hour,
            at.time.minute,
            at.time.second,
            at.utc_offset,
        ) == Some(s@),
{
    let naive = NaiveDate::from_ymd_opt(at.date.year, at.date.month, at.date.day)?.and_hms_opt(
        at.time.hour,
        at.time.minute,
        at.time.second,
    )?;
    let zone = FixedOffset::east_opt(at.utc_offset)?;
    zone.from_local_datetime(&naive).single().map(|t| t.to_rfc3339())
}

/// The abbreviated English name of a month; of a number outside 1 to 12,
/// that of December.
pub fn month_abbreviation_of(month: u32) -> (r: &'static str)
    ensures
        r@ == month_abbreviation(month as int),
{
    if month == 1 {
        "Jan"
    } else if month == 2 {
        "Feb"
    } else if month == 3 {
        "Mar"
    } else if month == 4 {
        "Apr"
    } else if month == 5 {
        "May"
    } else if month == 6 {
        "Jun"
    } else if month == 7 {
        "Jul"
    } else if month == 8 {
        "Aug"
    } else if month == 9 {
        "Sep"
    } else if month == 10 {
        "Oct"
    } else if month == 11 {
        "Nov"
    } else {
        "Dec"
    }
}

/// Whether a year of the calendar is a leap year.
fn leap_year(year: i32) -> (r: bool)
    requires
        MIN_YEAR <= year <= MAX_YEAR,
    ensures
        r == is_leap_year(year as int),
{
    // 262400 is a multiple of 400, so the shifted year is positive and
    // leap exactly when `year` is.
    let shifted: u32 = (year + 262_400) as u32;
    assert(shifted as int == year + 262_400);
    assert((year as int) % 4 == (shifted as int) % 4);
    assert((year as int) % 100 == (shifted as int) % 100);
    assert((year as int) % 400 == (shifted as int) % 400);
    shifted % 4 == 0 && (shifted % 100 != 0 || shifted % 400 == 0)
}

/// The number of days of a month of a year of the calendar.
fn month_length(year: i32, month: u32) -> (r: u32)
    requires
        MIN_YEAR <= year <= MAX_YEAR,
    ensures
        r == days_in_month(year as int, month as int),
{
    if month == 2 {
        if leap_year(year) {
            29
        } else {
            28
        }
    } else if month == 4 || month == 6 || month == 9 || month == 11 {
        30
    } else {
        31
    }
}

impl Date {
    /// The date is a day of the calendar.
    pub open spec fn wf(self) -> bool {
        valid_ymd(self.year as int, self.month as int, self.day as int)
    }

    /// `self` is an earlier day than `other`.
    pub open spec fn before(self, other: Date) -> bool {
        self.year < other.year || (self.year == other.year && (self.month < other.month || (
        self.month == other.month && self.day < other.day)))
    }

    /// `self` is `other` or an earlier day.
    pub open spec fn not_after(self, other: Date) -> bool {
        self == other || self.before(other)
    }

    /// The following day, if the calendar has one.
    pub open spec fn next(self) -> Option<Date> {
        if self.day < days_in_month(self.year as int, self.month as int) {
            Some(Date { year: self.year, month: self.month, day: (self.day + 1) as u32 })
        } else if self.month < 12 {
            Some(Date { year: self.year, month: (self.month + 1) as u32, day: 1 })
        } else if self.year < MAX_YEAR {
            Some(Date { year: (self.year + 1) as i32, month: 1, day: 1 })
        } else {
            None
        }
    }

    /// The preceding day, if the calendar has one.
    pub open spec fn prev(self) -> Option<Date> {
        if self.day > 1 {
            Some(Date { year: self.year, month: self.month, day: (self.day - 1) as u32 })
        } else if self.month > 1 {
            Some(
                Date {
                    year: self.year,
                    month: (self.month - 1) as u32,
                    day: days_in_month(self.year as int, self.month - 1) as u32,
                },
            )
        } else if self.year > MIN_YEAR {
            Some(Date { year: (self.year - 1) as i32, month: 12, day: 31 })
        } else {
            None
        }
    }

    /// The day `days` days after `self`, if the calendar reaches that far.
    pub open spec fn plus_days(self, days: nat) -> Option<Date>
        decreases days,
    {
        if days == 0 {
            Some(self)
        } else {
            match self.next() {
                Some(d) => d.plus_days((days - 1) as nat),
                None => None,
            }
        }
    }

    /// The day `days` days before `self`, if the calendar reaches that far.
    pub open spec fn minus_days(self, days: nat) -> Option<Date>
        decreases days,
    {
        if days == 0 {
            Some(self)
        } else {
            match self.prev() {
                Some(d) => d.minus_days((days - 1) as nat),
                None => None,
            }
        }
    }

    /// The date with the given year, month and day, if there is such a day.
    pub fn from_ymd_opt(year: i32, month: u32, day: u32) -> (r: Option<Date>)
        ensures
            valid_ymd(year as int, month as int, day as int) ==> r == Some(
                Date { year, month, day },
            ),
            !valid_ymd(year as int, month as int, day as int) ==> r is None,
            r matches Some(d) ==> d.wf(),
    {
        if MIN_YEAR <= year && year <= MAX_YEAR && 1 <= month && month <= 12 && 1 <= day && day
            <= month_length(year, month) {
            Some(Date { year, month, day })
        } else {
            None
        }
    }

    /// Whether the three fields name a day of the calendar.
    pub fn is_valid(&self) -> (r: bool)
        ensures
            r == self.wf(),
    {
        Date::from_ymd_opt(self.year, self.month, self.day).is_some()
    }

    /// Whether `self` is an earlier day than `other`.
    pub fn is_before(&self, other: &Date) -> (r: bool)
        ensures
            r == self.before(*other),
    {
        self.year < other.year || (self.year == other.year && (self.month < other.month || (
        self.month == other.month && self.day < other.day)))
    }

    /// The day `days` days later; none past the end of the calendar.
    pub fn checked_add_days(self, days: u32) -> (r: Option<Date>)
        requires
            self.wf(),
        ensures
            r == self.plus_days(days as nat),
    {
        date_plus_days(self, days)
    }

    /// The day `days` days earlier; none before the start of the calendar.
    pub fn checked_sub_days(self, days: u32) -> (r: Option<Date>)
        requires
            self.wf(),
        ensures
            r == self.minus_days(days as nat),
    {
        date_minus_days(self, days)
    }

    /// Reads a date written as `YYYY-MM-DD`.
    pub fn parse_iso(text: &str) -> (r: Option<Date>)
        ensures
            r == iso_date(text@),
            r matches Some(d) ==> d.wf(),
    {
        date_from_format(text, "%Y-%m-%d")
    }
}

/// The date that a `YYYY-MM-DD` text writes, if it writes one.
pub open spec fn iso_date(text: Seq<char>) -> Option<Date> {
    date_of_parts(parsed_date(text, "%Y-%m-%d"@))
}

impl TimeOfDay {
    /// Hour, minute and second are within their ranges.
    pub open spec fn wf(self) -> bool {
        self.hour < 24 && self.minute < 60 && self.second < 60
    }

    /// Whether hour, minute and second are within their ranges.
    pub fn is_valid(&self) -> (r: bool)
        ensures
            r == self.wf(),
    {
        self.hour < 24 && self.minute < 60 && self.second < 60
    }

    /// The start of the day.
    pub open spec fn start_of_day() -> TimeOfDay {
        TimeOfDay { hour: 0, minute: 0, second: 0 }
    }

    /// 00:00:00.
    pub fn midnight() -> (r: TimeOfDay)
        ensures
            r == TimeOfDay::start_of_day(),
            r.wf(),
    {
        TimeOfDay { hour: 0, minute: 0, second: 0 }
    }

    /// The time with the given hour, minute and second, if each is within
    /// its range.
    pub fn from_hms_opt(hour: u32, minute: u32, second: u32) -> (r: Option<TimeOfDay>)
        ensures
            hour < 24 && minute < 60 && second < 60 ==> r == Some(
                TimeOfDay { hour, minute, second },
            ),
            !(hour < 24 && minute < 60 && second < 60) ==> r is None,
    {
        if hour < 24 && minute < 60 && second < 60 {
            Some(TimeOfDay { hour, minute, second })
        } else {
            None
        }
    }
}

impl LocalDateTime {
    /// Date, time and offset are each within their ranges.
    pub open spec fn wf(self) -> bool {
        self.date.wf() && self.time.wf() && -86_400 < self.utc_offset < 86_400
    }

    /// The RFC 3339 text of this instant, if it has one.
    pub open spec fn rfc3339(self) -> Option<Seq<char>> {
        rfc3339_text(
            self.date.year,
            self.date.month,
            self.date.day,
            self.time.hour,
            self.time.minute,
            self.time.second,
            self.utc_offset,
        )
    }

    /// The offset that a wall clock gets, given what the time zone
    /// answered: the single offset of the wall clock where there is one;
    /// where the zone skips or repeats the wall clock, the offset that
    /// holds when the same numbers are read as UTC; zero without either.
    pub open spec fn chosen_offset(single: Option<i32>, at_utc: Option<i32>) -> i32 {
        match single {
            Some(offset) => offset,
            None => match at_utc {
                Some(offset) => offset,
                None => 0,
            },
        }
    }

    /// What a wall-clock `date` and `time` resolve to, given what the time
    /// zone answered: date and time stand as they are, with the offset of
    /// [`LocalDateTime::chosen_offset`].
    pub open spec fn resolved(
        date: Date,
        time: TimeOfDay,
        single: Option<i32>,
        at_utc: Option<i32>,
    ) -> LocalDateTime {
        LocalDateTime { date, time, utc_offset: LocalDateTime::chosen_offset(single, at_utc) }
    }

    /// Resolves a wall-clock time from the time zone's answers; see
    /// [`LocalDateTime::resolved`].
    pub fn resolve(date: Date, time: TimeOfDay, single: Option<i32>, at_utc: Option<i32>) -> (r:
        LocalDateTime)
        ensures
            r == LocalDateTime::resolved(date, time, single, at_utc),
    {
        let utc_offset = match single {
            Some(offset) => offset,
            None => match at_utc {
                Some(offset) => offset,
                None => 0,
            },
        };
        LocalDateTime { date, time, utc_offset }
    }

    /// Binds a wall-clock date and time to the machine's time zone: date
    /// and time are kept, and the offset is the zone's. Which offset that
    /// is depends on the machine.
    pub fn from_local(date: Date, time: TimeOfDay) -> (r: LocalDateTime)
        requires
            date.wf(),
            time.wf(),
        ensures
            r.date == date,
            r.time == time,
            r.wf(),
    {
        let single = local_offset_at(date, time);
        let at_utc = if single.is_none() {
            local_offset_at_utc(date, time)
        } else {
            None
        };
        LocalDateTime::resolve(date, time, single, at_utc)
    }

    /// Whether date, time and offset are each within their ranges.
    pub fn is_valid(&self) -> (r: bool)
        ensures
            r == self.wf(),
    {
        self.date.is_valid() && self.time.is_valid() && -86_400 < self.utc_offset
            && self.utc_offset < 86_400
    }

    /// The local calendar date.
    pub fn date_naive(&self) -> (r: Date)
        ensures
            r == self.date,
    {
        self.date
    }

    /// The instant as RFC 3339 text such as `2025-06-04T12:00:00+02:00`;
    /// none where the value is not well formed or the instant lies
    /// outside the calendar.
    pub fn to_rfc3339(&self) -> (r: Option<String>)
        ensures
            r is Some <==> self.rfc3339() is Some,
            r matches Some(s) ==> self.rfc3339() == Some(s@),
    {
        rfc3339_of(self)
    }
}

/// The week parameter that names the week of a date: the month's
/// abbreviation in small letters, the day, a dot and the year.
pub open spec fn week_param(date: Date) -> Seq<char> {
    lowercase_of(month_abbreviation(date.month as int)) + decimal_text(date.day as nat) + "."@
        + signed_text(date.year as int)
}

/// Formats a date as a week parameter: June 4, 2025 gives `jun4.2025`.
pub fn format_week_param(date: Date) -> (r: String)
    requires
        date.wf(),
    ensures
        r@ == week_param(date),
{
    let mut out = str_to_lowercase(month_abbreviation_of(date.month));
    push_decimal(&mut out, date.day);
    out.append(".");
    push_signed(&mut out, date.year);
    out
}

} // verus!
