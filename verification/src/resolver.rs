//! Resolution of what the caller asked for: the event window from two optional
//! date texts and the current time, and the target region.
//!
//! Times are milliseconds from 1970-01-01T00:00:00Z. The current time is an
//! argument, never read here.

use crate::calendar::{
    dashed_date, is_four_digit_date, midnight_millis, parsed_date, render_utc, rendered_utc,
    CalendarDate, Ymd, DATE_PATTERN, MILLIS_PER_DAY,
};
use vstd::prelude::*;

verus! {

/// Length of the default event window: ten days, in milliseconds.
pub const DEFAULT_WINDOW_MILLIS: i64 = 864_000_000;

/// The pattern, in `chrono`'s notation, under which the bounds of the window
/// are announced.
pub const ANNOUNCED_TIME_PATTERN: &'static str = "%Y-%m-%d %H:%M:%S UTC";

/// The range of event start times to ask for. `start <= end` is not required:
/// what a reversed window selects is left to the service.
#[derive(Clone, Copy, Debug, PartialEq, Eq)]
pub struct TimeWindow {
    pub start: i64,
    pub end: i64,
}

/// One bound of the window, with the warning to show if the caller's text for
/// it could not be read as a date.
#[derive(Clone, Debug, PartialEq, Eq)]
pub struct DateBound {
    pub instant: i64,
    pub warning: Option<String>,
}

/// A resolved window, with the warnings to show, in the order start, end.
#[derive(Clone, Debug, PartialEq, Eq)]
pub struct Resolution {
    pub window: TimeWindow,
    pub warnings: Vec<String>,
}

/// Why no target region could be settled.
#[derive(Clone, Copy, Debug, PartialEq, Eq)]
pub enum ResolveError {
    /// No region was given and the environment supplies no default.
    NoRegion,
}

/// The region through which the health service is reached, whatever region
/// the events are asked for.
pub fn control_plane_region() -> (region: String)
    ensures
        region@ == "us-east-1"@,
{
    "us-east-1".to_owned()
}

/// The warning for a date text that could not be read.
pub open spec fn warning_text(date_text: Seq<char>) -> Seq<char> {
    "Warning: Could not parse date '"@ + date_text + "'. Using default."@
}

/// The date that `chrono` reads from a text written as `YYYY-MM-DD`.
pub open spec fn date_in(date_text: Seq<char>) -> Option<Ymd> {
    match parsed_date(date_text, DATE_PATTERN@) {
        Some(d) => Some(Ymd { year: d.0 as int, month: d.1 as int, day: d.2 as int }),
        None => None,
    }
}

/// The instant of an optional date text: `default` where there is no text or
/// no date can be read from it.
pub open spec fn input_instant(input: Option<Seq<char>>, default: int) -> int {
    match input {
        Some(text) => match date_in(text) {
            Some(date) => midnight_millis(date.year, date.month, date.day),
            None => default,
        },
        None => default,
    }
}

/// The warnings of an optional date text: one where there is a text and no
/// date can be read from it.
pub open spec fn input_warnings(input: Option<Seq<char>>) -> Seq<Seq<char>> {
    match input {
        Some(text) => match date_in(text) {
            Some(_) => Seq::empty(),
            None => seq![warning_text(text)],
        },
        None => Seq::empty(),
    }
}

/// The announcement of a window whose bounds are written as `start_text` and
/// `end_text`.
pub open spec fn announcement_text(
    start_text: Seq<char>,
    end_text: Seq<char>,
    region: Seq<char>,
) -> Seq<char> {
    "Fetching AWS Health events from "@ + start_text + " to "@ + end_text + " for region "@
        + region
}

/// A text from which a date is read resolves to midnight UTC of that date and
/// gives no warning. Any other text resolves to the default and gives the
/// warning that quotes it.
pub proof fn lemma_date_or_default(date_text: Seq<char>, default: int)
    ensures
        match date_in(date_text) {
            Some(date) => {
                &&& input_instant(Some(date_text), default) == midnight_millis(
                    date.year,
                    date.month,
                    date.day,
                )
                &&& input_warnings(Some(date_text)) == Seq::<Seq<char>>::empty()
            },
            None => {
                &&& input_instant(Some(date_text), default) == default
                &&& input_warnings(Some(date_text)) == seq![warning_text(date_text)]
            },
        },
{
}

/// Where neither bound is given as a date, the window is exactly ten days
/// long and ends at `now`.
pub proof fn lemma_default_window_is_ten_days(
    from_utc: Option<Seq<char>>,
    to_utc: Option<Seq<char>>,
    now: int,
)
    requires
        from_utc matches Some(text) ==> date_in(text) is None,
        to_utc matches Some(text) ==> date_in(text) is None,
    ensures
        input_instant(to_utc, now) == now,
        input_instant(to_utc, now) - input_instant(from_utc, now - DEFAULT_WINDOW_MILLIS) == 10
            * MILLIS_PER_DAY,
{
}

/// The window of ten days that ends at `now`.
pub fn default_window(now: i64) -> (window: TimeWindow)
    requires
        now - DEFAULT_WINDOW_MILLIS >= i64::MIN,
    ensures
        window.end == now,
        window.start == now - DEFAULT_WINDOW_MILLIS,
{
    TimeWindow { start: now - DEFAULT_WINDOW_MILLIS, end: now }
}

/// The bound for a date text from which `parsed` was read: midnight UTC of
/// the date; without a date, `default` and a warning that quotes the text.
pub fn bound_from_parsed(
    parsed: Option<CalendarDate>,
    date_str: &str,
    default: i64,
) -> (bound: DateBound)
    ensures
        match parsed {
            Some(date) => {
                &&& bound.instant == midnight_millis(date@.year, date@.month, date@.day)
                &&& bound.warning is None
            },
            None => {
                &&& bound.instant == default
                &&& bound.warning.deep_view() == Some(warning_text(date_str@))
            },
        },
{
    match parsed {
        Some(date) => DateBound { instant: date.midnight_utc(), warning: None },
        None => {
            let mut warning = "Warning: Could not parse date '".to_owned();
            warning.append(date_str);
            warning.append("'. Using default.");
            DateBound { instant: default, warning: Some(warning) }
        },
    }
}

/// Reads `date_str` as `YYYY-MM-DD` and gives midnight UTC of that date. A
/// text that `chrono` does not read as such a date gives `default` and a
/// warning; it is never an error. A day of the calendar written in four, two
/// and two digits is always read.
pub fn parse_date_string(date_str: &str, default: i64) -> (bound: DateBound)
    ensures
        match date_in(date_str@) {
            Some(date) => {
                &&& bound.instant == midnight_millis(date.year, date.month, date.day)
                &&& bound.warning is None
            },
            None => {
                &&& bound.instant == default
                &&& bound.warning.deep_view() == Some(warning_text(date_str@))
            },
        },
        forall|year: int, month: int, day: int|
            is_four_digit_date(year, month, day) && date_str@ == #[trigger] dashed_date(
                year,
                month,
                day,
            ) ==> bound.instant == midnight_millis(year, month, day) && bound.warning is None,
{
    bound_from_parsed(CalendarDate::parse(date_str), date_str, default)
}

/// The event window for the optional texts of its start and end. A missing
/// or unreadable start is ten days before `now`, a missing or unreadable end
/// is `now`; each unreadable text adds a warning.
pub fn resolve_window(
    from_utc: &Option<String>,
    to_utc: &Option<String>,
    now: i64,
) -> (resolution: Resolution)
    requires
        now - DEFAULT_WINDOW_MILLIS >= i64::MIN,
    ensures
        resolution.window.start == input_instant(
            from_utc.deep_view(),
            now - DEFAULT_WINDOW_MILLIS,
        ),
        resolution.window.end == input_instant(to_utc.deep_view(), now as int),
        resolution.warnings.deep_view() == input_warnings(from_utc.deep_view()) + input_warnings(
            to_utc.deep_view(),
        ),
        resolution.warnings.len() == input_warnings(from_utc.deep_view()).len() + input_warnings(
            to_utc.deep_view(),
        ).len(),
{
    let defaults = default_window(now);
    let mut warnings: Vec<String> = Vec::new();
    let start = match from_utc {
        Some(text) => {
            let bound = parse_date_string(text.as_str(), defaults.start);
            match bound.warning {
                Some(warning) => {
                    warnings.push(warning);
                },
                None => {},
            }
            bound.instant
        },
        None => defaults.start,
    };
    let end = match to_utc {
        Some(text) => {
            let bound = parse_date_string(text.as_str(), defaults.end);
            match bound.warning {
                Some(warning) => {
                    warnings.push(warning);
                },
                None => {},
            }
            bound.instant
        },
        None => defaults.end,
    };
    Resolution { window: TimeWindow { start, end }, warnings }
}

/// The announcement of the window and region, given the two bounds already
/// written out.
pub fn announcement_from_texts(start_text: &str, end_text: &str, region: &str) -> (text: String)
    ensures
        text@ == announcement_text(start_text@, end_text@, region@),
{
    let mut text = "Fetching AWS Health events from ".to_owned();
    text.append(start_text);
    text.append(" to ");
    text.append(end_text);
    text.append(" for region ");
    text.append(region);
    text
}

/// The line that announces the window and the region before any remote call.
/// `None` where `chrono` cannot write one of the bounds.
pub fn announcement(window: &TimeWindow, region: &str) -> (text: Option<String>)
    ensures
        text.deep_view() == match (
            rendered_utc(window.start as int, ANNOUNCED_TIME_PATTERN@),
            rendered_utc(window.end as int, ANNOUNCED_TIME_PATTERN@),
        ) {
            (Some(start_text), Some(end_text)) => Some(
                announcement_text(start_text, end_text, region@),
            ),
            _ => None,
        },
{
    match render_utc(window.start, ANNOUNCED_TIME_PATTERN) {
        Some(start_text) => match render_utc(window.end, ANNOUNCED_TIME_PATTERN) {
            Some(end_text) => Some(
                announcement_from_texts(start_text.as_str(), end_text.as_str(), region),
            ),
            None => None,
        },
        None => None,
    }
}

/// The target region: the one given, else the default of the environment.
/// With neither there is no region, and that is an error.
pub fn resolve_region(
    given: Option<String>,
    environment_default: Option<String>,
) -> (region: Result<String, ResolveError>)
    ensures
        match (given, environment_default) {
            (Some(name), _) => region matches Ok(chosen) && chosen@ == name@,
            (None, Some(name)) => region matches Ok(chosen) && chosen@ == name@,
            (None, None) => region == Err::<String, ResolveError>(ResolveError::NoRegion),
        },
{
    match given {
        Some(name) => Ok(name),
        None => match environment_default {
            Some(name) => Ok(name),
            None => Err(ResolveError::NoRegion),
        },
    }
}

impl ResolveError {
    /// What to tell the user.
    pub fn message(&self) -> (text: String)
        ensures
            text@ == "no default region was set"@,
    {
        "no default region was set".to_owned()
    }
}

} // verus!
