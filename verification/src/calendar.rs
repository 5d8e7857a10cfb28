//! Calendar dates of the proleptic Gregorian calendar and their place on the
//! UTC time line, counted in milliseconds from 1970-01-01T00:00:00Z.
//!
//! Parsing and rendering of dates are done by `chrono`; the functions that
//! call it are the ones marked `external_body`, and their contracts are
//! believed, not proved.

use std::fmt::Write;
use vstd::prelude::*;

verus! {

/// The pattern, in `chrono`'s notation, of a date written as `YYYY-MM-DD`.
pub const DATE_PATTERN: &'static str = "%Y-%m-%d";

/// The pattern, in `chrono`'s notation, of a date written as `YYYYMMDD`.
pub const COMPACT_DATE_PATTERN: &'static str = "%Y%m%d";

/// The earliest year a [`CalendarDate`] can hold.
pub const MIN_YEAR: i32 = -262_143;

/// The latest year a [`CalendarDate`] can hold.
pub const MAX_YEAR: i32 = 262_142;

/// Milliseconds in one day.
pub const MILLIS_PER_DAY: i64 = 86_400_000;

/// Whether `year` has a February 29.
pub open spec fn is_leap_year(year: int) -> bool {
    year % 4 == 0 && (year % 100 != 0 || year % 400 == 0)
}

/// The number of days of `month` in `year`.
pub open spec fn days_in_month(year: int, month: int) -> int {
    if month == 2 {
        if is_leap_year(year) {
            29
        } else {
            28
        }
    } else if month == 4 || month == 6 || month == 9 || month == 11 {
        30
    } else {
        31
    }
}

/// Whether `year`-`month`-`day` names a day of the calendar, within the years
/// that a [`CalendarDate`] can hold.
pub open spec fn is_calendar_date(year: int, month: int, day: int) -> bool {
    &&& MIN_YEAR <= year <= MAX_YEAR
    &&& 1 <= month <= 12
    &&& 1 <= day <= days_in_month(year, month)
}

/// Days from 1970-01-01 to January 1 of `year` (negative before 1970).
pub open spec fn days_to_year(year: int) -> int {
    let past = year - 1;
    365 * past + past / 4 - past / 100 + past / 400 - 719_162
}

/// Days from January 1 of `year` to the first day of `month` in that year.
pub open spec fn days_before_month(year: int, month: int) -> int {
    let in_common_year: int = if month <= 1 {
        0
    } else if month == 2 {
        31
    } else if month == 3 {
        59
    } else if month == 4 {
        90
    } else if month == 5 {
        120
    } else if month == 6 {
        151
    } else if month == 7 {
        181
    } else if month == 8 {
        212
    } else if month == 9 {
        243
    } else if month == 10 {
        273
    } else if month == 11 {
        304
    } else {
        334
    };
    if month > 2 && is_leap_year(year) {
        in_common_year + 1
    } else {
        in_common_year
    }
}

/// Days from 1970-01-01 to `year`-`month`-`day` (negative before 1970).
pub open spec fn days_since_epoch(year: int, month: int, day: int) -> int {
    days_to_year(year) + days_before_month(year, month) + day - 1
}

/// Milliseconds from 1970-01-01T00:00:00Z to the given time of day on
/// `year`-`month`-`day`, leap seconds not counted.
pub open spec fn utc_millis(
    year: int,
    month: int,
    day: int,
    hour: int,
    minute: int,
    second: int,
) -> int {
    (days_since_epoch(year, month, day) * 86_400 + hour * 3_600 + minute * 60 + second) * 1_000
}

/// Milliseconds from 1970-01-01T00:00:00Z to midnight UTC at the start of
/// `year`-`month`-`day`.
pub open spec fn midnight_millis(year: int, month: int, day: int) -> int {
    utc_millis(year, month, day, 0, 0, 0)
}

/// The decimal digit for a value from 0 to 9.
pub open spec fn digit(value: int) -> char {
    if value == 0 {
        '0'
    } else if value == 1 {
        '1'
    } else if value == 2 {
        '2'
    } else if value == 3 {
        '3'
    } else if value == 4 {
        '4'
    } else if value == 5 {
        '5'
    } else if value == 6 {
        '6'
    } else if value == 7 {
        '7'
    } else if value == 8 {
        '8'
    } else {
        '9'
    }
}

/// A value from 0 to 99 in two digits.
pub open spec fn two_digits(value: int) -> Seq<char> {
    seq![digit(value / 10), digit(value % 10)]
}

/// A value from 0 to 9999 in four digits.
pub open spec fn four_digits(value: int) -> Seq<char> {
    seq![
        digit(value / 1000),
        digit(value / 100 % 10),
        digit(value / 10 % 10),
        digit(value % 10),
    ]
}

/// Whether `year`-`month`-`day` names a day of the calendar in a year that is
/// written in four digits without a sign.
pub open spec fn is_four_digit_date(year: int, month: int, day: int) -> bool {
    0 <= year <= 9999 && is_calendar_date(year, month, day)
}

/// The date written as `YYYY-MM-DD`.
pub open spec fn dashed_date(year: int, month: int, day: int) -> Seq<char> {
    four_digits(year) + seq!['-'] + two_digits(month) + seq!['-'] + two_digits(day)
}

/// The date written as `YYYYMMDD`.
pub open spec fn compact_date(year: int, month: int, day: int) -> Seq<char> {
    four_digits(year) + two_digits(month) + two_digits(day)
}

/// Whether the instant `millis` lies within the UTC day `year`-`month`-`day`.
pub open spec fn is_on_day(millis: int, year: int, month: int, day: int) -> bool {
    midnight_millis(year, month, day) <= millis < midnight_millis(year, month, day)
        + MILLIS_PER_DAY
}

/// The day count counts days: it is 0 on 1970-01-01 and goes up by one from
/// each day of the calendar to the next, within a month, from the last day of
/// a month to the first of the next, and from December 31 to January 1. The
/// days before a month are the days of the months before it.
pub proof fn lemma_day_count_follows_calendar(year: int, month: int, day: int)
    requires
        1 <= month <= 12,
        1 <= day <= days_in_month(year, month),
    ensures
        days_since_epoch(1970, 1, 1) == 0,
        days_before_month(year, 1) == 0,
        month < 12 ==> days_before_month(year, month + 1) == days_before_month(year, month)
            + days_in_month(year, month),
        day < days_in_month(year, month) ==> days_since_epoch(year, month, day + 1)
            == days_since_epoch(year, month, day) + 1,
        day == days_in_month(year, month) && month < 12 ==> days_since_epoch(year, month + 1, 1)
            == days_since_epoch(year, month, day) + 1,
        day == 31 && month == 12 ==> days_since_epoch(year + 1, 1, 1) == days_since_epoch(
            year,
            month,
            day,
        ) + 1,
{
}

/// Midnight is a whole number of days from the epoch.
pub proof fn lemma_midnight_is_whole_days(year: int, month: int, day: int)
    ensures
        midnight_millis(year, month, day) == days_since_epoch(year, month, day) * MILLIS_PER_DAY,
        midnight_millis(year, month, day) % (MILLIS_PER_DAY as int) == 0,
{
}

/// The date that `chrono` reads from `text` under `pattern`, as year, month
/// and day; `None` where it reads none.
pub uninterp spec fn parsed_date(text: Seq<char>, pattern: Seq<char>) -> Option<(i32, u32, u32)>;

/// The text that `chrono` writes under `pattern` for the instant `millis`
/// milliseconds from 1970-01-01T00:00:00Z, taken in UTC; `None` where it
/// writes none.
pub uninterp spec fn rendered_utc(millis: int, pattern: Seq<char>) -> Option<Seq<char>>;

/// Calls `chrono::NaiveDate::parse_from_str` and takes the date apart with
/// `Datelike`. Believed: the outcome depends on `text` and `pattern` alone;
/// a date that comes back is a day of the calendar within
/// [`MIN_YEAR`]..=[`MAX_YEAR`], the range of `NaiveDate`; and under
/// [`DATE_PATTERN`] a day of the calendar written as `YYYY-MM-DD` is read as
/// that day.
#[verifier::external_body]
fn parse_date(text: &str, pattern: &str) -> (date: Option<(i32, u32, u32)>)
    ensures
        date == parsed_date(text@, pattern@),
        date matches Some(d) ==> is_calendar_date(d.0 as int, d.1 as int, d.2 as int),
        forall|year: int, month: int, day: int|
            pattern@ == DATE_PATTERN@ && is_four_digit_date(year, month, day) && text@
                == #[trigger] dashed_date(year, month, day) ==> date == Some(
                (year as i32, month as u32, day as u32),
            ),
{
    match chrono::NaiveDate::parse_from_str(text, pattern) {
        Ok(d) => Some(
            (chrono::Datelike::year(&d), chrono::Datelike::month(&d), chrono::Datelike::day(&d)),
        ),
        Err(_) => None,
    }
}

/// Builds the instant with `chrono::NaiveDate::from_ymd_opt`,
/// `NaiveDate::and_hms_opt` and `NaiveDateTime::and_utc`, and calls
/// `DateTime::timestamp_millis` on it. Believed: for a day of the calendar and
/// a time of day, the result is the count of milliseconds from
/// 1970-01-01T00:00:00Z in the proleptic Gregorian calendar, leap seconds not
/// counted.
#[verifier::external_body]
fn chrono_utc_millis(
    year: i32,
    month: u32,
    day: u32,
    hour: u32,
    minute: u32,
    second: u32,
) -> (millis: i64)
    requires
        is_calendar_date(year as int, month as int, day as int),
        hour < 24,
        minute < 60,
        second < 60,
    ensures
        millis == utc_millis(
            year as int,
            month as int,
            day as int,
            hour as int,
            minute as int,
            second as int,
        ),
{
    chrono::NaiveDate::from_ymd_opt(year, month, day)
        .unwrap()
        .and_hms_opt(hour, minute, second)
        .unwrap()
        .and_utc()
        .timestamp_millis()
}

/// Calls `chrono::DateTime::from_timestamp_millis` and writes the instant
/// with `DateTime::format`. Believed: the outcome depends on `millis` and
/// `pattern` alone; and under [`COMPACT_DATE_PATTERN`] an instant within a
/// day of a four-digit year is written as that day's `YYYYMMDD`. `None`
/// stands for an instant outside `chrono`'s range or a pattern that `chrono`
/// cannot write.
#[verifier::external_body]
pub(crate) fn render_utc(millis: i64, pattern: &str) -> (text: Option<String>)
    ensures
        text.deep_view() == rendered_utc(millis as int, pattern@),
        forall|year: int, month: int, day: int|
            pattern@ == COMPACT_DATE_PATTERN@ && is_four_digit_date(year, month, day)
                && is_on_day(millis as int, year, month, day) ==> text.deep_view() == Some(
                #[trigger] compact_date(year, month, day),
            ),
{
    let instant = chrono::DateTime::from_timestamp_millis(millis)?;
    let mut text = String::new();
    match write!(text, "{}", instant.format(pattern)) {
        Ok(()) => Some(text),
        Err(_) => None,
    }
}

/// A year, a month and a day as mathematical integers.
pub struct Ymd {
    pub year: int,
    pub month: int,
    pub day: int,
}

/// A day of the proleptic Gregorian calendar between the years [`MIN_YEAR`]
/// and [`MAX_YEAR`]. Every value names a day that exists.
#[derive(Clone, Copy, Debug, PartialEq, Eq)]
pub struct CalendarDate {
    year: i32,
    month: u32,
    day: u32,
}

impl View for CalendarDate {
    type V = Ymd;

    closed spec fn view(&self) -> Ymd {
        Ymd { year: self.year as int, month: self.month as int, day: self.day as int }
    }
}

/// Whether `year` has a February 29.
pub fn leap_year(year: i32) -> (leap: bool)
    ensures
        leap == is_leap_year(year as int),
{
    // The shift is a multiple of 400, so it keeps every remainder, and it
    // makes the year positive.
    let shifted: i64 = year as i64 + 2_147_484_000;
    shifted % 4 == 0 && (shifted % 100 != 0 || shifted % 400 == 0)
}

/// The number of days of `month` in `year`.
pub fn month_length(year: i32, month: u32) -> (days: u32)
    ensures
        days == days_in_month(year as int, month as int),
{
    if month == 2 {
        if leap_year(year) {
            29
        } else {
            28
        }
    } else if month == 4 || month == 6 || month == 9 || month == 11 {
        30
    } else {
        31
    }
}

impl CalendarDate {
    #[verifier::type_invariant]
    spec fn exists_in_calendar(self) -> bool {
        is_calendar_date(self.year as int, self.month as int, self.day as int)
    }

    /// The date `year`-`month`-`day`, if the calendar has such a day.
    pub fn new(year: i32, month: u32, day: u32) -> (date: Option<CalendarDate>)
        ensures
            date is Some <==> is_calendar_date(year as int, month as int, day as int),
            date matches Some(d) ==> d@ == (Ymd {
                year: year as int,
                month: month as int,
                day: day as int,
            }),
    {
        if year < MIN_YEAR || year > MAX_YEAR || month < 1 || month > 12 || day < 1 {
            return None;
        }
        if day > month_length(year, month) {
            return None;
        }
        Some(CalendarDate { year, month, day })
    }

    /// The date written in `text` as `YYYY-MM-DD`, as `chrono` reads it. A day
    /// of the calendar written in four, two and two digits is read as that
    /// day.
    pub fn parse(text: &str) -> (date: Option<CalendarDate>)
        ensures
            match parsed_date(text@, DATE_PATTERN@) {
                Some(d) => date matches Some(found) && found@ == (Ymd {
                    year: d.0 as int,
                    month: d.1 as int,
                    day: d.2 as int,
                }),
                None => date is None,
            },
            forall|year: int, month: int, day: int|
                is_four_digit_date(year, month, day) && text@ == #[trigger] dashed_date(
                    year,
                    month,
                    day,
                ) ==> (date matches Some(found) && found@ == (Ymd { year, month, day })),
    {
        match parse_date(text, DATE_PATTERN) {
            Some((year, month, day)) => Some(CalendarDate { year, month, day }),
            None => None,
        }
    }

    /// Midnight UTC at the start of this day, in milliseconds from
    /// 1970-01-01T00:00:00Z.
    pub fn midnight_utc(&self) -> (millis: i64)
        ensures
            millis == midnight_millis(self@.year, self@.month, self@.day),
    {
        proof {
            use_type_invariant(self);
        }
        chrono_utc_millis(self.year, self.month, self.day, 0, 0, 0)
    }

    pub fn year(&self) -> (year: i32)
        ensures
            year == self@.year,
            is_calendar_date(self@.year, self@.month, self@.day),
    {
        proof {
            use_type_invariant(self);
        }
        self.year
    }

    pub fn month(&self) -> (month: u32)
        ensures
            month == self@.month,
            is_calendar_date(self@.year, self@.month, self@.day),
    {
        proof {
            use_type_invariant(self);
        }
        self.month
    }

    pub fn day(&self) -> (day: u32)
        ensures
            day == self@.day,
            is_calendar_date(self@.year, self@.month, self@.day),
    {
        proof {
            use_type_invariant(self);
        }
        self.day
    }
}

} // verus!
