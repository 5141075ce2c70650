//! Instants in UTC, counted in whole seconds since 1970-01-01T00:00:00Z, and the
//! clock and calendar arithmetic that `chrono` does on them.

use chrono::{DateTime, Duration, Utc};
use vstd::prelude::*;

verus! {

/// The earliest instant that a `chrono::DateTime<Utc>` holds, the timestamp of
/// `DateTime::<Utc>::MIN_UTC`.
pub const MIN_INSTANT: i64 = -8_334_601_228_800;

/// The latest instant that a `chrono::DateTime<Utc>` holds, the timestamp of
/// `DateTime::<Utc>::MAX_UTC`: the last second of the year 262142.
pub const MAX_INSTANT: i64 = 8_210_266_876_799;

/// Whether a number of seconds since the epoch is an instant that a date-time can hold.
pub open spec fn is_instant(t: int) -> bool {
    MIN_INSTANT <= t <= MAX_INSTANT
}

/// Tells whether a number of seconds since the epoch is an instant.
pub fn check_instant(t: i64) -> (ok: bool)
    ensures
        ok == is_instant(t as int),
{
    MIN_INSTANT <= t && t <= MAX_INSTANT
}

/// The current time, read by `chrono::Utc::now` and cut down to whole seconds by
/// `DateTime::timestamp`. Assumed: what comes back is an instant, as every
/// `DateTime<Utc>` is one. `chrono` panics where the system clock stands before
/// 1970.
#[verifier::external_body]
pub(crate) fn now_utc() -> (now: i64)
    ensures
        is_instant(now as int),
{
    Utc::now().timestamp()
}

/// The instant `hours` hours after `t`, by `DateTime<Utc> + Duration::hours(hours)`.
/// Assumed, as `chrono` documents it: `Duration::hours` is `hours * 60 * 60`
/// seconds, and the sum is that many seconds later. `chrono` panics where the sum
/// is no instant, which the precondition rules out.
#[verifier::external_body]
pub(crate) fn plus_hours(t: i64, hours: i64) -> (later: i64)
    requires
        is_instant(t as int),
        is_instant(t + 3600 * hours),
    ensures
        later == t + 3600 * hours,
{
    (DateTime::<Utc>::from_timestamp(t, 0).unwrap() + Duration::hours(hours)).timestamp()
}

/// The instant `minutes` minutes after `t`, by
/// `DateTime<Utc> + Duration::minutes(minutes)`. Assumed, as `chrono` documents it:
/// `Duration::minutes` is `minutes * 60` seconds, and the sum is that many seconds
/// later. `chrono` panics where the sum is no instant, which the precondition
/// rules out.
#[verifier::external_body]
pub(crate) fn plus_minutes(t: i64, minutes: i64) -> (later: i64)
    requires
        is_instant(t as int),
        is_instant(t + 60 * minutes),
    ensures
        later == t + 60 * minutes,
{
    (DateTime::<Utc>::from_timestamp(t, 0).unwrap() + Duration::minutes(minutes)).timestamp()
}

} // verus!
