use vstd::prelude::*;
use chrono::{DateTime, Datelike, NaiveDate};

verus! {

/// Smallest day number (days from the Common Era, 0001-01-01 being day 1) that
/// chrono's `NaiveDate` can hold: January 1 of year -262143.
pub const DAY_MIN: i32 = -95_746_129;

/// Largest day number that chrono's `NaiveDate` can hold: December 31 of year 262142.
pub const DAY_MAX: i32 = 95_745_399;

/// Whether `days` names a calendar date that chrono can hold.
pub open spec fn day_in_range(days: int) -> bool {
    DAY_MIN <= days <= DAY_MAX
}

/// Weekday of day number `days`, counted from Monday = 0 (0001-01-01 was a Monday).
pub open spec fn weekday_of(days: int) -> int {
    (days - 1) % 7
}

/// Earliest Unix second an RFC 3339 date-time can denote: chrono reads a four-digit
/// year, so 0000-01-01T00:00:00, moved by an offset of less than a day.
pub const RFC3339_SECS_MIN: i64 = -62_167_305_600;

/// Latest Unix second an RFC 3339 date-time can denote: 9999-12-31T23:59:59, moved by
/// an offset of less than a day.
pub const RFC3339_SECS_MAX: i64 = 253_402_387_199;

/// What chrono's RFC 3339 parser makes of `text`: `None` when the text is not an
/// RFC 3339 date-time, else its Unix timestamp in whole seconds and the nanoseconds
/// past that second.
pub uninterp spec fn rfc3339_instant(text: Seq<char>) -> Option<(i64, u32)>;

/// The text `%Y-%m-%d` that chrono writes for day number `days`.
pub uninterp spec fn iso_date(days: i32) -> Seq<char>;

/// Calls `chrono::DateTime::parse_from_rfc3339` and reads the parsed date-time's
/// `timestamp` and `timestamp_subsec_nanos`. The parser takes a four-digit year and an
/// offset under a day, so the seconds lie in `RFC3339_SECS_MIN ..= RFC3339_SECS_MAX`; the
/// nanoseconds stay under two seconds' worth (a leap second adds one second to them).
/// Which instant a text denotes is only named, not restated.
#[verifier::external_body]
pub(crate) fn parse_rfc3339_instant(text: &str) -> (r: Option<(i64, u32)>)
    ensures
        r == rfc3339_instant(text@),
        r matches Some(p) ==> RFC3339_SECS_MIN <= p.0 <= RFC3339_SECS_MAX && p.1 < 2_000_000_000,
{
    match DateTime::parse_from_rfc3339(text) {
        Ok(parsed) => Some((parsed.timestamp(), parsed.timestamp_subsec_nanos())),
        Err(_) => None,
    }
}

/// Calls `chrono::NaiveDate::from_num_days_from_ce_opt`, which yields a date for every
/// day number in `DAY_MIN ..= DAY_MAX`, and formats it with `%Y-%m-%d`. The text is
/// only named, not restated.
#[verifier::external_body]
pub(crate) fn format_iso_date(days: i32) -> (r: String)
    requires
        day_in_range(days as int),
    ensures
        r@ == iso_date(days),
{
    NaiveDate::from_num_days_from_ce_opt(days).unwrap().format("%Y-%m-%d").to_string()
}

/// Calls `chrono::NaiveDate::from_num_days_from_ce_opt` and then `weekday()` and
/// `num_days_from_monday()`: in chrono's proleptic Gregorian calendar day 1 is a
/// Monday and weekdays repeat every seven days.
#[verifier::external_body]
pub(crate) fn weekday_from_monday(days: i32) -> (r: u32)
    requires
        day_in_range(days as int),
    ensures
        r == weekday_of(days as int),
{
    NaiveDate::from_num_days_from_ce_opt(days).unwrap().weekday().num_days_from_monday()
}

/// The label `YYYY-MM-DD` of day number `days` (0001-01-01 being day 1); `None` for a
/// day outside the calendar chrono can hold.
pub fn day_label(days: i32) -> (r: Option<String>)
    ensures
        r is Some <==> day_in_range(days as int),
        r matches Some(s) ==> s@ == iso_date(days),
{
    if days < DAY_MIN || days > DAY_MAX {
        None
    } else {
        Some(format_iso_date(days))
    }
}

} // verus!
