//! Calendar dates and times of day as plain values, and the calls into
//! `chrono` that read them from text and place them in the machine's time
//! zone.

use chrono::{Datelike, Local, NaiveDate, NaiveDateTime, TimeZone, Timelike};
use vstd::prelude::*;

verus! {

/// A day of the calendar.
#[derive(Debug, Clone, Copy, PartialEq, Eq, Structural)]
pub struct CalendarDay {
    pub year: i32,
    pub month: u32,
    pub day: u32,
}

/// A day and a time of day, with no time zone.
#[derive(Debug, Clone, Copy, PartialEq, Eq, Structural)]
pub struct WallClock {
    pub year: i32,
    pub month: u32,
    pub day: u32,
    pub hour: u32,
    pub minute: u32,
    pub second: u32,
}

/// Whether a year of the Gregorian calendar has a 29th of February.
pub open spec fn is_leap_year(year: int) -> bool {
    year % 4 == 0 && (year % 100 != 0 || year % 400 == 0)
}

/// The leap years before `year`, counted from a fixed origin far in the past:
/// every fourth year, but for every hundredth that is no four-hundredth.
pub open spec fn leap_years_before(year: int) -> int {
    (year - 1) / 4 - (year - 1) / 100 + (year - 1) / 400
}

/// The days from the first of January 1970 to the first of January of `year`;
/// negative for a year before 1970.
pub open spec fn days_before_year(year: int) -> int {
    365 * (year - 1970) + leap_years_before(year) - leap_years_before(1970)
}

/// The days of a year that lie before the first of `month`.
pub open spec fn days_before_month(month: int, leap: bool) -> int {
    let common: int = if month <= 1 {
        0
    } else if month == 2 {
        31
    } else if month == 3 {
        59
    } else if month == 4 {
        90
    } else if month == 5 {
        120
    } else if month == 6 {
        151
    } else if month == 7 {
        181
    } else if month == 8 {
        212
    } else if month == 9 {
        243
    } else if month == 10 {
        273
    } else if month == 11 {
        304
    } else {
        334
    };
    if leap && month > 2 {
        common + 1
    } else {
        common
    }
}

/// The days from the first of January 1970 to a day of the proleptic
/// Gregorian calendar.
pub open spec fn days_from_epoch(day: CalendarDay) -> int {
    days_before_year(day.year as int) + days_before_month(
        day.month as int,
        is_leap_year(day.year as int),
    ) + day.day - 1
}

/// The seconds from 1970-01-01 00:00:00 to a date and time of day, both read
/// in the same zone: what a clock that knows no zone would count.
pub open spec fn naive_seconds_of(w: WallClock) -> int {
    days_from_epoch(CalendarDay { year: w.year, month: w.month, day: w.day }) * 86400 + w.hour
        * 3600 + w.minute * 60 + w.second
}

/// An instant, in milliseconds since the Unix epoch, that some time zone can
/// give to the local time `w`: a whole second, and less than a day away from
/// what `w` would be in a zone without offset.
pub open spec fn within_zone_of(ms: i64, w: WallClock) -> bool {
    &&& ms % 1000 == 0
    &&& (naive_seconds_of(w) - 86400) * 1000 < ms < (naive_seconds_of(w) + 86400) * 1000
}

/// What `chrono::NaiveDateTime::parse_from_str` reads from `text` under the
/// format `fmt`: the date and the time of day, down to the second, or `None`
/// where it refuses the text.
pub uninterp spec fn naive_datetime_of(text: Seq<char>, fmt: Seq<char>) -> Option<WallClock>;

/// What `chrono::NaiveDate::parse_from_str` reads from `text` under the format
/// `fmt`, or `None` where it refuses the text.
pub uninterp spec fn naive_date_of(text: Seq<char>, fmt: Seq<char>) -> Option<CalendarDay>;

/// Calls `chrono::NaiveDateTime::parse_from_str` and hands out the fields of
/// what it read. The result depends on the two texts alone and is named by
/// `naive_datetime_of`; nothing else is claimed of it.
#[verifier::external_body]
pub(crate) fn parse_naive_datetime(text: &str, fmt: &str) -> (r: Option<WallClock>)
    ensures
        r == naive_datetime_of(text@, fmt@),
{
    match NaiveDateTime::parse_from_str(text, fmt) {
        Ok(t) => Some(
            WallClock {
                year: t.year(),
                month: t.month(),
                day: t.day(),
                hour: t.hour(),
                minute: t.minute(),
                second: t.second(),
            },
        ),
        Err(_) => None,
    }
}

/// Calls `chrono::NaiveDate::parse_from_str` and hands out the fields of what
/// it read. The result depends on the two texts alone and is named by
/// `naive_date_of`; nothing else is claimed of it.
#[verifier::external_body]
pub(crate) fn parse_naive_date(text: &str, fmt: &str) -> (r: Option<CalendarDay>)
    ensures
        r == naive_date_of(text@, fmt@),
{
    match NaiveDate::parse_from_str(text, fmt) {
        Ok(d) => Some(CalendarDay { year: d.year(), month: d.month(), day: d.day() }),
        Err(_) => None,
    }
}

/// Calls `chrono::Local.from_local_datetime(..).single()` on the date and time
/// that the fields name, and hands out the instant in milliseconds since the
/// Unix epoch. `None` where the fields name no date or time, or where the
/// machine's time zone has that local time twice or not at all. The answer
/// depends on the machine's time zone. What holds in every zone: chrono
/// subtracts from the local time an offset of less than a day either way
/// (`FixedOffset::east_opt` admits no other), and the local time has whole
/// seconds, so the instant is a whole second less than a day away from the
/// local time read without offset.
#[verifier::external_body]
pub(crate) fn local_millis(w: WallClock) -> (r: Option<i64>)
    ensures
        r is Some ==> within_zone_of(r.unwrap(), w),
{
    let day = NaiveDate::from_ymd_opt(w.year, w.month, w.day)?;
    let at = day.and_hms_opt(w.hour, w.minute, w.second)?;
    Local.from_local_datetime(&at).single().map(|t| t.timestamp_millis())
}

/// A multiple of 400 that lifts every year above zero, so that quotients and
/// remainders can be taken on numbers that are not negative.
const YEAR_LIFT: i64 = 2_147_484_000;

/// Whether a year of the Gregorian calendar has a 29th of February.
pub fn leap_year(year: i32) -> (r: bool)
    ensures
        r == is_leap_year(year as int),
{
    let lifted: i64 = year as i64 + YEAR_LIFT;
    lifted % 4 == 0 && (lifted % 100 != 0 || lifted % 400 == 0)
}

/// Lifting a number by `YEAR_LIFT` lifts its quotients by 4, 100 and 400 by
/// the quotients of `YEAR_LIFT`.
proof fn lemma_lifted_quotients(y: int)
    ensures
        (y + 2_147_484_000) / 4 == y / 4 + 536_871_000,
        (y + 2_147_484_000) / 100 == y / 100 + 21_474_840,
        (y + 2_147_484_000) / 400 == y / 400 + 5_368_710,
{
    vstd::arithmetic::div_mod::lemma_hoist_over_denominator(y, 536_871_000, 4);
    vstd::arithmetic::div_mod::lemma_hoist_over_denominator(y, 21_474_840, 100);
    vstd::arithmetic::div_mod::lemma_hoist_over_denominator(y, 5_368_710, 400);
}

/// The leap years before `year`, counted from the origin of
/// `leap_years_before`.
fn leap_years_to(year: i32) -> (r: i64)
    ensures
        r == leap_years_before(year as int),
        -600_000_000 <= r <= 600_000_000,
{
    let lifted: i64 = year as i64 - 1 + YEAR_LIFT;
    proof {
        lemma_lifted_quotients(year as int - 1);
    }
    let fourth: i64 = lifted / 4 - 536_871_000;
    let hundredth: i64 = lifted / 100 - 21_474_840;
    let four_hundredth: i64 = lifted / 400 - 5_368_710;
    fourth - hundredth + four_hundredth
}

/// The days of a year that lie before the first of `month`.
fn days_to_month(month: u32, leap: bool) -> (r: i64)
    ensures
        r == days_before_month(month as int, leap),
        0 <= r <= 335,
{
    let common: i64 = if month <= 1 {
        0
    } else if month == 2 {
        31
    } else if month == 3 {
        59
    } else if month == 4 {
        90
    } else if month == 5 {
        120
    } else if month == 6 {
        151
    } else if month == 7 {
        181
    } else if month == 8 {
        212
    } else if month == 9 {
        243
    } else if month == 10 {
        273
    } else if month == 11 {
        304
    } else {
        334
    };
    if leap && month > 2 {
        common + 1
    } else {
        common
    }
}

/// The days from the first of January 1970 to a day of the calendar.
pub fn days_since_epoch(day: CalendarDay) -> (r: i64)
    ensures
        r == days_from_epoch(day),
        -800_000_000_000 <= r <= 800_000_000_000,
{
    let leaps: i64 = leap_years_to(day.year) - 477;
    proof {
        assert(leap_years_before(1970) == 477) by {
            assert(1969int / 4 == 492);
            assert(1969int / 100 == 19);
            assert(1969int / 400 == 4);
        }
    }
    let before_year: i64 = 365 * (day.year as i64 - 1970) + leaps;
    let before_month: i64 = days_to_month(day.month, leap_year(day.year));
    before_year + before_month + day.day as i64 - 1
}

/// The seconds from 1970-01-01 00:00:00 to a date and time of day, read
/// without a zone.
pub fn naive_seconds(w: WallClock) -> (r: i64)
    ensures
        r == naive_seconds_of(w),
{
    let days: i64 = days_since_epoch(CalendarDay { year: w.year, month: w.month, day: w.day });
    days * 86400 + w.hour as i64 * 3600 + w.minute as i64 * 60 + w.second as i64
}

/// Local times that lie two days apart or more stay in their order in every
/// zone: the earlier one gives the earlier instant.
pub proof fn lemma_instants_keep_order(a: i64, first: WallClock, b: i64, second: WallClock)
    requires
        within_zone_of(a, first),
        within_zone_of(b, second),
        naive_seconds_of(first) + 2 * 86400 <= naive_seconds_of(second),
    ensures
        a < b,
{
}

} // verus!
