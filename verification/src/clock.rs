//! Instants in UTC and the date-time texts the database stores.

use vstd::prelude::*;
use crate::error::Error;
use crate::text::cat;

verus! {

/// An instant: whole seconds since 1970-01-01 00:00:00 UTC and the
/// nanoseconds past that second.
#[derive(Debug, Clone, Copy, PartialEq, Eq, Structural)]
pub struct Timestamp {
    pub secs: i64,
    pub nanos: u32,
}

/// `a` is not later than `b` (the order of `DateTime<Utc>`).
pub open spec fn ts_le(a: Timestamp, b: Timestamp) -> bool {
    a.secs < b.secs || (a.secs == b.secs && a.nanos <= b.nanos)
}

/// Whether `a` is not later than `b`.
pub fn not_after(a: Timestamp, b: Timestamp) -> (r: bool)
    ensures
        r == ts_le(a, b),
{
    a.secs < b.secs || (a.secs == b.secs && a.nanos <= b.nanos)
}

/// What chrono writes for the instant `secs`/`nanos` with a strftime
/// `pattern`, or `None` when chrono cannot represent the instant.
pub uninterp spec fn chrono_text(secs: i64, nanos: u32, pattern: Seq<char>) -> Option<Seq<char>>;

/// What chrono's RFC 3339 reader makes of `text`, as seconds and nanoseconds
/// in UTC, or `None` when it rejects the text.
pub uninterp spec fn rfc3339_instant(text: Seq<char>) -> Option<(i64, u32)>;

/// What chrono's `NaiveDateTime::parse_from_str` makes of `text` with
/// `pattern`, read as UTC: seconds and nanoseconds, or the text of the parse
/// error.
pub uninterp spec fn naive_instant(text: Seq<char>, pattern: Seq<char>) -> Result<(i64, u32), Seq<char>>;

/// The strftime pattern of stored date-times.
pub open spec fn datetime_pattern() -> Seq<char> {
    "%Y-%m-%d %H:%M:%S"@
}

/// The strftime pattern of calendar days.
pub open spec fn date_pattern() -> Seq<char> {
    "%Y-%m-%d"@
}

/// Calls `chrono::Utc::now`. The clock's reading is not known in advance; chrono
/// reads it from `SystemTime` as seconds since the epoch and the nanoseconds
/// below one second.
#[verifier::external_body]
pub fn utc_now() -> (t: Timestamp)
    ensures
        t.secs >= 0,
        t.nanos < 1_000_000_000,
{
    let now = chrono::Utc::now();
    Timestamp { secs: now.timestamp(), nanos: now.timestamp_subsec_nanos() }
}

/// Calls `chrono::DateTime::from_timestamp` and writes the result with
/// `DateTime::format(pattern)`; the result is the text chrono writes, named
/// `chrono_text`, or `None` where chrono has no date-time for the instant.
#[verifier::external_body]
fn chrono_format(secs: i64, nanos: u32, pattern: &str) -> (r: Option<String>)
    requires
        pattern@ == datetime_pattern() || pattern@ == date_pattern(),
    ensures
        match r {
            Some(s) => chrono_text(secs, nanos, pattern@) == Some(s@),
            None => chrono_text(secs, nanos, pattern@) is None,
        },
{
    match chrono::DateTime::from_timestamp(secs, nanos) {
        Some(d) => Some(d.format(pattern).to_string()),
        None => None,
    }
}

/// Calls `chrono::DateTime::parse_from_rfc3339` and converts the result to UTC
/// seconds and nanoseconds; the outcome is named `rfc3339_instant`.
#[verifier::external_body]
fn parse_rfc3339(text: &str) -> (r: Option<Timestamp>)
    ensures
        match r {
            Some(t) => rfc3339_instant(text@) == Some((t.secs, t.nanos)),
            None => rfc3339_instant(text@) is None,
        },
{
    match chrono::DateTime::parse_from_rfc3339(text) {
        Ok(d) => Some(Timestamp { secs: d.timestamp(), nanos: d.timestamp_subsec_nanos() }),
        Err(_) => None,
    }
}

/// Calls `chrono::NaiveDateTime::parse_from_str` and reads the result as UTC;
/// the outcome, including the text of chrono's parse error, is named
/// `naive_instant`.
#[verifier::external_body]
fn parse_naive(text: &str, pattern: &str) -> (r: Result<Timestamp, String>)
    ensures
        match r {
            Ok(t) => naive_instant(text@, pattern@) == Ok::<(i64, u32), Seq<char>>((t.secs, t.nanos)),
            Err(e) => naive_instant(text@, pattern@) == Err::<(i64, u32), Seq<char>>(e@),
        },
{
    match chrono::NaiveDateTime::parse_from_str(text, pattern) {
        Ok(n) => {
            let d = n.and_utc();
            Ok(Timestamp { secs: d.timestamp(), nanos: d.timestamp_subsec_nanos() })
        },
        Err(e) => Err(e.to_string()),
    }
}

/// How a stored date-time text is read: RFC 3339 first, then
/// `YYYY-MM-DD HH:MM:SS` as UTC; otherwise the error names the text and the
/// reader's complaint.
pub open spec fn parse_utc_spec(value: Seq<char>) -> Result<(i64, u32), Seq<char>> {
    match rfc3339_instant(value) {
        Some(t) => Ok(t),
        None => match naive_instant(value, datetime_pattern()) {
            Ok(t) => Ok(t),
            Err(e) => Err("invalid datetime '"@ + value + "': "@ + e),
        },
    }
}

/// Reads a stored date-time text.
pub fn parse_utc(value: &str) -> (r: Result<Timestamp, Error>)
    ensures
        match r {
            Ok(t) => parse_utc_spec(value@) == Ok::<(i64, u32), Seq<char>>((t.secs, t.nanos)),
            Err(Error::InvalidInput(m)) => parse_utc_spec(value@) == Err::<(i64, u32), Seq<char>>(m@),
            Err(_) => false,
        },
{
    if let Some(t) = parse_rfc3339(value) {
        return Ok(t);
    }
    match parse_naive(value, "%Y-%m-%d %H:%M:%S") {
        Ok(t) => Ok(t),
        Err(e) => {
            let mut m = cat("invalid datetime '", value);
            m.append("': ");
            m.append(e.as_str());
            Err(Error::InvalidInput(m))
        },
    }
}

/// The stored text of an instant, `YYYY-MM-DD HH:MM:SS` in UTC.
pub fn format_utc(t: Timestamp) -> (r: Option<String>)
    ensures
        match r {
            Some(s) => chrono_text(t.secs, t.nanos, datetime_pattern()) == Some(s@),
            None => chrono_text(t.secs, t.nanos, datetime_pattern()) is None,
        },
{
    chrono_format(t.secs, t.nanos, "%Y-%m-%d %H:%M:%S")
}

/// The calendar day of an instant, `YYYY-MM-DD` in UTC.
pub fn format_date(t: Timestamp) -> (r: Option<String>)
    ensures
        match r {
            Some(s) => chrono_text(t.secs, t.nanos, date_pattern()) == Some(s@),
            None => chrono_text(t.secs, t.nanos, date_pattern()) is None,
        },
{
    chrono_format(t.secs, t.nanos, "%Y-%m-%d")
}

/// Nanoseconds in a day.
pub open spec fn day_nanos() -> int {
    86_400_000_000_000
}

/// Whole days from `last` to `now`, never negative: chrono's `num_days` of the
/// difference, truncated toward zero, then raised to `0`.
pub open spec fn elapsed_days_spec(now: Timestamp, last: Timestamp) -> int {
    let x = (now.secs - last.secs) * 1_000_000_000 + (now.nanos - last.nanos);
    if x <= 0 { 0 } else { x / day_nanos() }
}

/// Whole days elapsed from `last` to `now`, `0` when `last` is not earlier.
pub fn elapsed_days(now: Timestamp, last: Timestamp) -> (d: i64)
    ensures
        d == elapsed_days_spec(now, last),
        d >= 0,
{
    let x: i128 = (now.secs as i128 - last.secs as i128) * 1_000_000_000i128
        + (now.nanos as i128 - last.nanos as i128);
    if x <= 0 {
        0
    } else {
        let d = x / 86_400_000_000_000i128;
        assert(d <= 0x7fff_ffff_ffff_ffff) by (nonlinear_arith)
            requires
                0 < x <= 0x1_0000_0000_0000_0000 * 1_000_000_000 + 0x1_0000_0000,
                d == x / 86_400_000_000_000i128,
        ;
        d as i64
    }
}

} // verus!
