use vstd::prelude::*;
use chrono::{Datelike, TimeZone, Timelike};
use crate::text::padded;

verus! {

/// The system clock's distance from the Unix epoch in whole milliseconds,
/// through `std::time::SystemTime::now` and
/// `SystemTime::duration_since(UNIX_EPOCH)` (`Duration::as_millis`): `Ok`
/// at or after the epoch, `Err` with the distance before it
/// (`SystemTimeError::duration`) where the clock reads earlier. Nothing is
/// promised of the value: it is whatever time the machine reports.
#[verifier::external_body]
fn system_clock_ms() -> (r: Result<u128, u128>) {
    match std::time::SystemTime::now().duration_since(std::time::UNIX_EPOCH) {
        Ok(d) => Ok(d.as_millis()),
        Err(e) => Err(e.duration().as_millis()),
    }
}

/// The latest instant this library writes as a calendar time:
/// 9999-12-31T00:00:00Z, in milliseconds since the Unix epoch.
pub open spec fn max_calendar_ms() -> int {
    253402214400000
}

/// Instants from 1970 up to the last day of the year 9999: every local time
/// of them falls in the years 1969 to 9999, written with four digits.
pub open spec fn in_written_range(ts_ms: int) -> bool {
    0 <= ts_ms <= max_calendar_ms()
}

/// The signed distance a clock reading gives, in milliseconds.
pub open spec fn reading_ms(r: Result<u128, u128>) -> int {
    match r {
        Ok(m) => m as int,
        Err(m) => -(m as int),
    }
}

/// A signed distance, held within the years -9999 to 9999.
pub open spec fn clamped_ms(x: int) -> int {
    if x > max_calendar_ms() {
        max_calendar_ms()
    } else if x < -max_calendar_ms() {
        -max_calendar_ms()
    } else {
        x
    }
}

/// The timestamp of a clock reading, held within the years -9999 to 9999 so
/// that every calendar operation on it is defined.
pub fn millis_from_reading(r: Result<u128, u128>) -> (ms: i64)
    ensures
        ms == clamped_ms(reading_ms(r)),
{
    match r {
        Ok(m) => if m > 253402214400000 { 253402214400000 } else { m as i64 },
        Err(m) => if m > 253402214400000 { -253402214400000 } else { -(m as i64) },
    }
}

/// The time the system clock reads now, as milliseconds since the Unix
/// epoch.
pub(crate) fn current_time_millis() -> (now: i64)
    ensures
        -max_calendar_ms() <= now <= max_calendar_ms(),
{
    millis_from_reading(system_clock_ms())
}

/// The local calendar day of a millisecond timestamp, counted as
/// `Datelike::num_days_from_ce` of its date in the local zone (0001-01-01 is
/// day 1), through `DateTime::from_timestamp_millis` and
/// `with_timezone(&Local)`. chrono documents `from_timestamp_millis` as
/// giving `None` only outside its range of about 262,000 years either side
/// of year 0. Which day it is depends on the machine's time zone, and is
/// stated only as that of a local reading.
#[verifier::external_body]
fn local_day(ts_ms: i64) -> (day: Option<i64>)
    ensures
        -max_calendar_ms() <= ts_ms <= max_calendar_ms() ==> day is Some,
        day_of_instant(ts_ms as int, day),
{
    chrono::DateTime::from_timestamp_millis(ts_ms).map(|d| d.with_timezone(&chrono::Local).num_days_from_ce() as i64)
}

/// The local calendar day of the moment `now` (see `local_day`).
pub(crate) fn local_day_at(now: i64) -> (day: i64)
    requires
        -max_calendar_ms() <= now <= max_calendar_ms(),
    ensures
        day_of_instant(now as int, Some(day)),
{
    match local_day(now) {
        Some(d) => d,
        None => {
            assert(false);
            0
        },
    }
}

/// A date of the proleptic Gregorian calendar.
pub open spec fn civil_date_valid(year: int, month: int, day: int) -> bool {
    1 <= month <= 12 && 1 <= day <= crate::analysis::month_length(year, month)
}

/// Days from 1970-01-01 to the date `year-month-day` of the proleptic
/// Gregorian calendar (negative before it), counted in 400-year eras from
/// 0000-03-01.
pub open spec fn days_from_civil(year: int, month: int, day: int) -> int {
    let y = if month <= 2 { year - 1 } else { year };
    let era = y / 400;
    let yoe = y - era * 400;
    let mp = if month > 2 { month - 3 } else { month + 9 };
    let doy = (153 * mp + 2) / 5 + day - 1;
    let doe = yoe * 365 + yoe / 4 - yoe / 100 + doy;
    era * 146097 + doe - 719468
}

/// Milliseconds since the Unix epoch of the wall time
/// `year-month-day hour:minute:second` read as UTC.
pub open spec fn civil_ms(year: int, month: int, day: int, hour: int, minute: int, second: int) -> int {
    ((days_from_civil(year, month, day) * 86400) + hour * 3600 + minute * 60 + second) * 1000
}

/// The first days of consecutive months lie a month's length apart.
pub proof fn lemma_month_span(year: int, month: int)
    requires
        1 <= month <= 11,
    ensures
        days_from_civil(year, month + 1, 1) - days_from_civil(year, month, 1) == crate::analysis::month_length(year, month),
{
    if month == 2 {
        let y = year - 1;
        let era = y / 400;
        let yoe = y - era * 400;
        let era2 = year / 400;
        let yoe2 = year - era2 * 400;
        if yoe == 399 {
            assert(era2 == era + 1);
            assert(yoe2 == 0);
        } else {
            assert(era2 == era);
            assert(yoe2 == yoe + 1);
        }
    }
}

/// One day in milliseconds: every local time lies less than a day from the
/// same wall time read as UTC (chrono's offsets, `FixedOffset::east_opt`,
/// lie strictly within a day).
pub open spec fn day_ms() -> int {
    86_400_000
}

/// A wall-clock time, to the second.
pub struct CivilTime {
    pub year: int,
    pub month: int,
    pub day: int,
    pub hour: int,
    pub minute: int,
    pub second: int,
}

/// `t` can be the local wall time of the instant `ts_ms`: a date of the years
/// 0 to 9999, a time of day in range, and less than a day from the instant
/// (the local time is the instant shifted by the zone's offset, which lies
/// strictly within a day, then cut to the second).
pub open spec fn local_reading(ts_ms: int, t: CivilTime) -> bool {
    &&& 0 <= t.year <= 9999
    &&& civil_date_valid(t.year, t.month, t.day)
    &&& 0 <= t.hour < 24 && 0 <= t.minute < 60 && 0 <= t.second < 60
    &&& -day_ms() < civil_ms(t.year, t.month, t.day, t.hour, t.minute, t.second) - ts_ms < day_ms()
}

/// The fields of `t` as chrono writes them for the formats this library
/// uses: `%Y` as four digits (zero-padded), `%m`, `%d`, `%H`, `%M`, `%S` as
/// two.
pub open spec fn local_time_text(fmt: Seq<char>, t: CivilTime) -> Seq<char> {
    let date = padded(t.year as nat, 4) + seq!['-'] + padded(t.month as nat, 2) + seq!['-'] + padded(t.day as nat, 2);
    let time = padded(t.hour as nat, 2) + seq![':'] + padded(t.minute as nat, 2) + seq![':'] + padded(t.second as nat, 2);
    if fmt == "%Y-%m-%d"@ {
        date
    } else if fmt == "%H:%M:%S"@ {
        time
    } else if fmt == "%Y-%m-%d %H:%M:%S"@ {
        date + seq![' '] + time
    } else {
        padded(t.year as nat, 4) + padded(t.month as nat, 2) + padded(t.day as nat, 2) + seq!['_']
            + padded(t.hour as nat, 2) + padded(t.minute as nat, 2) + padded(t.second as nat, 2)
    }
}

/// The weekday of a date as `Weekday::number_from_monday` counts it
/// (Monday = 1 ... Sunday = 7); 1970-01-01 was a Thursday.
pub open spec fn weekday_number(t: CivilTime) -> int {
    (days_from_civil(t.year, t.month, t.day) + 3) % 7 + 1
}

/// The day of a date counted from the common era, 0001-01-01 being day 1
/// (`Datelike::num_days_from_ce`); 1970-01-01 is day 719163.
pub open spec fn day_number(t: CivilTime) -> int {
    days_from_civil(t.year, t.month, t.day) + 719163
}

/// `day` is the day number of a local reading of the instant `ts_ms`, for
/// instants from 1970 to the year 9999.
pub open spec fn day_of_instant(ts_ms: int, day: Option<i64>) -> bool {
    in_written_range(ts_ms) ==> (day matches Some(d) && exists|t: CivilTime| #[trigger] local_reading(ts_ms, t)
        && d == day_number(t))
}

/// `hour` is the hour of a local reading of the instant `ts_ms`, for
/// instants from 1970 to the year 9999.
pub open spec fn local_hour_of(ts_ms: int, hour: Option<u32>) -> bool {
    in_written_range(ts_ms) ==> (hour matches Some(h) && exists|t: CivilTime| #[trigger] local_reading(ts_ms, t) && h == t.hour)
}

/// `found` is the weekday and hour of one local reading of the instant
/// `ts_ms`, for instants from 1970 to the year 9999.
pub open spec fn local_weekday_hour_of(ts_ms: int, found: Option<(u32, u32)>) -> bool {
    in_written_range(ts_ms) ==> (found matches Some((d, h)) && exists|t: CivilTime| #[trigger] local_reading(ts_ms, t)
        && d == weekday_number(t) && h == t.hour)
}

/// The local hour (`Timelike::hour`) of a millisecond timestamp, through
/// `chrono::Local.timestamp_millis_opt`, which chrono documents as giving a
/// single local time for every timestamp in its range (about 262,000 years
/// either side of year 0) and none outside it. The hour is that of the local
/// time, stated to within a day of the instant.
#[verifier::external_body]
pub(crate) fn local_hour(ts_ms: i64) -> (hour: Option<u32>)
    ensures
        hour matches Some(h) ==> h < 24,
        local_hour_of(ts_ms as int, hour),
{
    chrono::Local.timestamp_millis_opt(ts_ms).single().map(|dt| dt.hour())
}

/// The local weekday (`Weekday::number_from_monday`) and hour
/// (`Timelike::hour`) of a millisecond timestamp, both of one local time
/// from `chrono::Local.timestamp_millis_opt`; see `local_hour`.
#[verifier::external_body]
pub(crate) fn local_weekday_hour(ts_ms: i64) -> (found: Option<(u32, u32)>)
    ensures
        found matches Some((d, h)) ==> 1 <= d <= 7 && h < 24,
        local_weekday_hour_of(ts_ms as int, found),
{
    chrono::Local.timestamp_millis_opt(ts_ms).single().map(|dt| (dt.weekday().number_from_monday(), dt.hour()))
}

/// `found` is the year and month of a local reading of the instant `ts_ms`,
/// for instants from 1970 to the year 9999.
pub open spec fn local_year_month_of(ts_ms: int, found: Option<(i32, u32)>) -> bool {
    in_written_range(ts_ms) ==> (found matches Some((y, m)) && exists|t: CivilTime| #[trigger] local_reading(ts_ms, t)
        && y == t.year && m == t.month)
}

/// The local year (`Datelike::year`) and month (`Datelike::month`, 1 to 12)
/// of a millisecond timestamp, both of one local time from
/// `chrono::Local.timestamp_millis_opt`; see `local_hour`.
#[verifier::external_body]
pub(crate) fn local_year_month(ts_ms: i64) -> (found: Option<(i32, u32)>)
    ensures
        found matches Some((y, m)) ==> 1 <= m <= 12,
        local_year_month_of(ts_ms as int, found),
{
    chrono::Local.timestamp_millis_opt(ts_ms).single().map(|dt| (dt.year(), dt.month()))
}

/// `text` is the instant `ts_ms` written in the local zone with `fmt`, as
/// far as it can be stated without the zone: for instants from 1970 to the
/// year 9999, the fields of a local reading of it.
pub open spec fn local_text_of(ts_ms: int, fmt: Seq<char>, text: Seq<char>) -> bool {
    in_written_range(ts_ms) ==> exists|t: CivilTime| #[trigger] local_reading(ts_ms, t) && text == local_time_text(fmt, t)
}

/// `text` begins with the RFC 3339 date and time (`YYYY-MM-DDTHH:MM:SS`) of a
/// local reading of the instant `ts_ms`, for instants from 1970 to the year
/// 9999; what follows (fraction of a second, offset) is not stated.
pub open spec fn local_rfc3339_of(ts_ms: int, text: Seq<char>) -> bool {
    in_written_range(ts_ms) ==> exists|t: CivilTime| #[trigger] local_reading(ts_ms, t) && text.len() >= 19
        && text.subrange(0, 19) == local_time_text("%Y-%m-%d"@, t) + seq!['T'] + local_time_text("%H:%M:%S"@, t)
}

/// The RFC 3339 text of a millisecond timestamp in the local time zone
/// (`DateTime::to_rfc3339` after `DateTime::from_timestamp_millis` and
/// `with_timezone(&Local)`); empty where chrono cannot represent the instant.
/// chrono writes the local date and time first (`write_rfc3339`), then the
/// fraction of a second and the offset; which local time it is depends on the
/// machine's time zone, and is stated only to within a day.
#[verifier::external_body]
pub(crate) fn local_rfc3339(ts_ms: i64) -> (s: String)
    ensures
        local_rfc3339_of(ts_ms as int, s@),
{
    chrono::DateTime::from_timestamp_millis(ts_ms)
        .map(|d| d.with_timezone(&chrono::Local).to_rfc3339())
        .unwrap_or_default()
}

/// Text made only of digits, `-`, `+` and `_`: what chrono writes for the
/// numeric fields of a date (`%Y`, signed where the year needs it, `%m`,
/// `%d`, `%H`, `%M`, `%S`) joined by `-` or `_`.
pub open spec fn stamp_chars(s: Seq<char>) -> bool {
    forall|i: int| 0 <= i < s.len() ==> {
        let c = #[trigger] s[i];
        ('0' as u32 <= c as u32 && c as u32 <= '9' as u32) || c == '-' || c == '+' || c == '_'
    }
}

/// The chrono format strings that this library writes times with; each is
/// made only of chrono's numeric date and time fields and literal separators,
/// so formatting with it cannot fail.
pub open spec fn time_format_known(fmt: Seq<char>) -> bool {
    fmt == "%Y-%m-%d"@ || fmt == "%Y%m%d_%H%M%S"@ || fmt == "%Y-%m-%d %H:%M:%S"@ || fmt == "%H:%M:%S"@
}

/// A millisecond timestamp written in the local time zone with a chrono
/// format string (`DateTime::format`, after `DateTime::from_timestamp_millis`
/// and `with_timezone(&Local)`); empty where chrono cannot represent the
/// instant. The fields are those of the local time (`format_with_items` on
/// the local date and time), as chrono's `strftime` documents them: `%Y` the
/// year zero-padded to four digits (a sign before years beyond that), `%m`,
/// `%d`, `%H`, `%M`, `%S` two digits. Which local time it is depends on the
/// machine's time zone, and is stated only to within a day.
#[verifier::external_body]
pub(crate) fn local_format(ts_ms: i64, fmt: &str) -> (s: String)
    requires
        time_format_known(fmt@),
    ensures
        (fmt@ == "%Y-%m-%d"@ || fmt@ == "%Y%m%d_%H%M%S"@) ==> stamp_chars(s@),
        local_text_of(ts_ms as int, fmt@, s@),
{
    chrono::DateTime::from_timestamp_millis(ts_ms)
        .map(|d| d.with_timezone(&chrono::Local).format(fmt).to_string())
        .unwrap_or_default()
}

/// Milliseconds from `start` to `now`, or zero where `now` is not later.
pub open spec fn elapsed_between(start: i64, now: i64) -> nat {
    if now > start {
        (now - start) as nat
    } else {
        0
    }
}

/// Milliseconds from `start` to `now`; zero when the clock reads earlier than
/// `start`.
pub fn elapsed_ms(start: i64, now: i64) -> (e: u64)
    ensures
        e == elapsed_between(start, now),
{
    if now > start {
        let d: i128 = (now as i128) - (start as i128);
        d as u64
    } else {
        0
    }
}

} // verus!
