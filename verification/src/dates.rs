//! Clock readings, and date parsing and writing done by `chrono`.

use vstd::prelude::*;
use std::time::{Duration, SystemTime, UNIX_EPOCH};

verus! {

/// The seconds since the Unix epoch of a date-time read from `s` with the
/// `chrono` format `fmt`, taking it as UTC; `None` when it does not parse.
pub uninterp spec fn naive_datetime_seconds(s: Seq<char>, fmt: Seq<char>) -> Option<int>;

/// The seconds since the Unix epoch of the midnight (UTC) starting the date
/// read from `s` with the `chrono` format `fmt`; `None` when it does not
/// parse.
pub uninterp spec fn naive_date_seconds(s: Seq<char>, fmt: Seq<char>) -> Option<int>;

/// Bound on the seconds of any `chrono` date-time: its dates lie within the
/// years -262144 to 262143, well inside `±10^13` seconds of the epoch.
pub open spec fn seconds_in_range(x: int) -> bool {
    -10_000_000_000_000 < x < 10_000_000_000_000
}

/// The last second `chrono` can hold: the end of 262142-12-31 (UTC), in
/// seconds since the Unix epoch.
pub open spec fn last_chrono_second() -> int {
    8_210_266_876_799int
}

#[verifier::external_type_specification]
#[verifier::external_body]
pub struct ExSystemTime(std::time::SystemTime);

/// `SystemTime::now()`: a reading of the system clock; nothing is stated of
/// it.
#[verifier::external_body]
fn system_now() -> (r: SystemTime) {
    SystemTime::now()
}

/// `SystemTime::duration_since(UNIX_EPOCH)`: the time from the Unix epoch
/// to `t`, or `None` when `t` lies before the epoch; nothing more is stated.
#[verifier::external_body]
fn since_unix_epoch(t: &SystemTime) -> (r: Option<Duration>) {
    match t.duration_since(UNIX_EPOCH) {
        Ok(d) => Some(d),
        Err(_) => None,
    }
}

/// `Duration::as_secs`: the whole seconds of a duration.
#[verifier::external_body]
fn duration_seconds(d: Duration) -> (r: u64) {
    d.as_secs()
}

/// The current time in whole seconds since the Unix epoch, read from the
/// system clock as `chrono::Utc::now` reads it. `None` where `Utc::now`
/// would panic: when the clock reads before the epoch, or past the last
/// second `chrono` can hold. Which time it is is not stated.
pub(crate) fn utc_now() -> (r: Option<i64>)
    ensures
        r matches Some(x) ==> 0 <= x <= last_chrono_second(),
{
    let t = system_now();
    match since_unix_epoch(&t) {
        Some(d) => {
            let secs = duration_seconds(d);
            if secs <= 8_210_266_876_799u64 {
                Some(secs as i64)
            } else {
                None
            }
        },
        None => None,
    }
}

/// `NaiveDateTime::parse_from_str(s, fmt)`, read as UTC seconds
/// (`and_utc().timestamp()`). The result is named; when present it lies
/// within `chrono`'s range.
#[verifier::external_body]
pub(crate) fn parse_naive_datetime(s: &str, fmt: &str) -> (r: Option<i64>)
    ensures
        r matches Some(x) ==> naive_datetime_seconds(s@, fmt@) == Some(x as int) && seconds_in_range(x as int),
        r is None ==> naive_datetime_seconds(s@, fmt@) is None,
{
    match chrono::NaiveDateTime::parse_from_str(s, fmt) {
        Ok(dt) => Some(dt.and_utc().timestamp()),
        Err(_) => None,
    }
}

/// `NaiveDate::parse_from_str(s, fmt)` at midnight, read as UTC seconds.
/// The result is named; when present it lies within `chrono`'s range.
#[verifier::external_body]
pub(crate) fn parse_naive_date(s: &str, fmt: &str) -> (r: Option<i64>)
    ensures
        r matches Some(x) ==> naive_date_seconds(s@, fmt@) == Some(x as int) && seconds_in_range(x as int),
        r is None ==> naive_date_seconds(s@, fmt@) is None,
{
    match chrono::NaiveDate::parse_from_str(s, fmt) {
        Ok(d) => Some(d.and_time(chrono::NaiveTime::MIN).and_utc().timestamp()),
        Err(_) => None,
    }
}

/// What `chrono` writes with the format `fmt` for the UTC date-time `secs`
/// seconds after the Unix epoch; `None` where it holds no such date-time.
pub uninterp spec fn timestamp_text(secs: int, fmt: Seq<char>) -> Option<Seq<char>>;

/// What this library writes for the date `days` days after 1970-01-01 with
/// the format `fmt`: `chrono`'s text for its midnight (UTC).
pub open spec fn day_text(days: int, fmt: Seq<char>) -> Seq<char> {
    match timestamp_text(days * 86400, fmt) {
        Some(t) => t,
        None => Seq::empty(),
    }
}

/// Days (from 1970-01-01) of the dates `chrono` holds: from
/// `NaiveDate::MIN` (-262143-01-01) to `NaiveDate::MAX` (262142-12-31).
pub open spec fn day_in_range(days: int) -> bool {
    -96465293 <= days <= 95026236
}

/// The date formats this library writes: `2024-03-15` and `20240315`.
pub open spec fn day_format_ok(fmt: Seq<char>) -> bool {
    fmt == "%Y-%m-%d"@ || fmt == "%Y%m%d"@
}

/// `DateTime::from_timestamp(secs, 0)`, then `format(fmt)` written out.
/// The text is named. `from_timestamp` gives a date-time exactly when the
/// day `secs / 86400` (rounded down) lies within `NaiveDate`'s range;
/// `chrono` documents `%Y-%m-%d` as the form `NaiveDate`'s `Display` writes.
#[verifier::external_body]
fn format_timestamp(secs: i64, fmt: &str) -> (r: Option<String>)
    requires
        day_format_ok(fmt@),
    ensures
        r matches Some(t) ==> timestamp_text(secs as int, fmt@) == Some(t@),
        r is None ==> timestamp_text(secs as int, fmt@) is None,
        day_in_range(secs as int / 86400) ==> r is Some,
{
    match chrono::DateTime::from_timestamp(secs, 0) {
        Some(dt) => Some(dt.format(fmt).to_string()),
        None => None,
    }
}

/// The date `days` days after 1970-01-01 written with `fmt`; `chrono`
/// holds every date of the range, so there is always a text.
pub(crate) fn format_day(days: i64, fmt: &str) -> (r: String)
    requires
        day_in_range(days as int),
        day_format_ok(fmt@),
    ensures
        r@ == day_text(days as int, fmt@),
        timestamp_text(days as int * 86400, fmt@) is Some,
{
    let secs = days * 86400;
    proof {
        assert((days as int * 86400) / 86400 == days as int) by (nonlinear_arith);
    }
    match format_timestamp(secs, fmt) {
        Some(t) => t,
        None => String::new(),
    }
}

/// Offset of China Standard Time from UTC, in seconds (UTC+8).
pub const CST_OFFSET_SECONDS: i64 = 28800;

/// The instant of a China Standard Time wall-clock reading given as the
/// seconds it would have in UTC.
pub open spec fn cst_to_utc(local_seconds: int) -> int {
    local_seconds - CST_OFFSET_SECONDS
}

/// A `YYYY-MM-DD HH:MM:SS` date-time in China Standard Time, as UTC
/// seconds since the Unix epoch.
pub open spec fn cst_datetime_spec(s: Seq<char>) -> Option<int> {
    match naive_datetime_seconds(s, "%Y-%m-%d %H:%M:%S"@) {
        Some(x) => Some(cst_to_utc(x)),
        None => None,
    }
}

/// A `YYYY-MM-DD` date at midnight China Standard Time, as UTC seconds
/// since the Unix epoch.
pub open spec fn cst_date_spec(s: Seq<char>) -> Option<int> {
    match naive_date_seconds(s, "%Y-%m-%d"@) {
        Some(x) => Some(cst_to_utc(x)),
        None => None,
    }
}

/// Reads a `YYYY-MM-DD HH:MM:SS` date-time in China Standard Time.
pub fn parse_cst_datetime(s: &str) -> (r: Option<i64>)
    ensures
        r matches Some(x) ==> cst_datetime_spec(s@) == Some(x as int),
        r is None ==> cst_datetime_spec(s@) is None,
{
    match parse_naive_datetime(s, "%Y-%m-%d %H:%M:%S") {
        Some(x) => Some(x - CST_OFFSET_SECONDS),
        None => None,
    }
}

/// Reads a `YYYY-MM-DD` date as its midnight in China Standard Time.
pub fn parse_cst_date(s: &str) -> (r: Option<i64>)
    ensures
        r matches Some(x) ==> cst_date_spec(s@) == Some(x as int),
        r is None ==> cst_date_spec(s@) is None,
{
    match parse_naive_date(s, "%Y-%m-%d") {
        Some(x) => Some(x - CST_OFFSET_SECONDS),
        None => None,
    }
}

} // verus!
