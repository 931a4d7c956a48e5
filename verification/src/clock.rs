//! Time: the clock, and the calendar conversions the server asks of chrono.
//! Instants are held as milliseconds since the Unix epoch (UTC).
use vstd::prelude::*;

verus! {

/// Bound on the magnitude of any instant chrono can represent, in milliseconds:
/// chrono's dates span the years -262143..=262142, under 8.4e15 ms from the epoch.
pub const MILLIS_BOUND: i64 = 100_000_000_000_000_000;

pub open spec fn in_clock_range(ms: i64) -> bool {
    -MILLIS_BOUND < ms < MILLIS_BOUND
}

/// `chrono::Utc::now()`, in milliseconds since the epoch (`timestamp_millis`).
/// What the clock reads is not stated; only that it lies in chrono's range.
#[verifier::external_body]
pub(crate) fn now_millis() -> (ms: i64)
    ensures
        in_clock_range(ms),
{
    chrono::Utc::now().timestamp_millis()
}

/// The first second chrono can represent: January 1 of the year -262143
/// (`NaiveDate::MIN`, `MIN_YEAR`), 00:00:00 UTC, in Unix seconds.
pub const CHRONO_MIN_UNIX_SECS: i64 = -8_334_601_228_800;

/// The last second chrono can represent: December 31 of the year 262142
/// (`NaiveDate::MAX`, `MAX_YEAR`), 23:59:59 UTC, in Unix seconds.
pub const CHRONO_MAX_UNIX_SECS: i64 = 8_210_266_876_799;

/// The instant that `chrono::DateTime::from_timestamp(secs, 0)` gives, in
/// milliseconds: `secs` seconds after the epoch where chrono's dates reach
/// it, `None` otherwise.
pub open spec fn utc_millis_from_unix_secs(secs: i64) -> Option<i64> {
    if CHRONO_MIN_UNIX_SECS <= secs <= CHRONO_MAX_UNIX_SECS {
        Some((secs * 1000) as i64)
    } else {
        None
    }
}

#[verifier::external_body]
pub(crate) fn utc_from_unix_secs(secs: i64) -> (r: Option<i64>)
    ensures
        r == utc_millis_from_unix_secs(secs),
        r matches Some(ms) ==> ms == secs * 1000 && in_clock_range(ms),
{
    match chrono::DateTime::from_timestamp(secs, 0) {
        Some(d) => Some(d.timestamp_millis()),
        None => None,
    }
}

/// The instant that `chrono::DateTime::parse_from_rfc3339(text)` denotes, in
/// milliseconds since the epoch, or `None` where chrono rejects the text.
pub uninterp spec fn rfc3339_millis(text: Seq<char>) -> Option<i64>;

/// `chrono::DateTime::parse_from_rfc3339(text)`, converted to UTC and read
/// with `timestamp_millis`. Claims: the result is the name above applied to
/// the text; where it is `Some`, it lies in chrono's range.
#[verifier::external_body]
pub(crate) fn parse_rfc3339_millis(text: &str) -> (r: Option<i64>)
    ensures
        r == rfc3339_millis(text@),
        r matches Some(ms) ==> in_clock_range(ms),
{
    match chrono::DateTime::parse_from_rfc3339(text) {
        Ok(d) => Some(d.with_timezone(&chrono::Utc).timestamp_millis()),
        Err(_) => None,
    }
}

} // verus!
