//! Readings of the clocks and fresh identifiers. What they return depends on
//! the moment or on chance, so their contracts promise only what holds of
//! every outcome.
use std::time::{Duration, Instant};

use vstd::prelude::*;

verus! {

/// A moment of the monotonic clock (`std::time::Instant`).
#[verifier::external_type_specification]
#[verifier::external_body]
pub struct ExInstant(Instant);

/// `Instant::now`: the current moment of the monotonic clock.
#[verifier::external_body]
pub(crate) fn instant_now() -> Instant {
    Instant::now()
}

/// `Instant::elapsed`: the time since `start`.
#[verifier::external_body]
pub(crate) fn instant_elapsed(start: &Instant) -> Duration {
    start.elapsed()
}

/// `Duration::as_secs`: the whole seconds of a duration.
pub assume_specification[ Duration::as_secs ](d: &Duration) -> u64;

/// `Duration::as_nanos`: the nanoseconds of a duration.
pub assume_specification[ Duration::as_nanos ](d: &Duration) -> u128;

/// The whole seconds since `start`.
pub(crate) fn instant_elapsed_secs(start: &Instant) -> u64 {
    instant_elapsed(start).as_secs()
}

/// The nanoseconds since `start`.
pub(crate) fn instant_elapsed_nanos(start: &Instant) -> u128 {
    instant_elapsed(start).as_nanos()
}

/// `chrono::Local::now().timestamp()`: the current Unix time in seconds.
#[verifier::external_body]
pub(crate) fn unix_now() -> i64 {
    chrono::Local::now().timestamp()
}

/// The Unix time of today's local midnight (`chrono`: today's date at
/// 00:00:00 in the local time zone); `None` when the time zone maps that
/// local time to no instant or to two (a daylight-saving change at midnight).
#[verifier::external_body]
pub(crate) fn local_midnight_unix() -> Option<i64> {
    let midnight = chrono::Local::now().date_naive().and_hms_opt(0, 0, 0);
    match midnight {
        Some(t) => match t.and_local_timezone(chrono::Local) {
            chrono::LocalResult::Single(dt) => Some(dt.timestamp()),
            chrono::LocalResult::Ambiguous(_, _) => None,
            chrono::LocalResult::None => None,
        },
        None => None,
    }
}

/// Today's local date as `YYYY-MM-DD` (`chrono` formatting with `%Y-%m-%d`).
#[verifier::external_body]
pub(crate) fn local_date_string() -> String {
    chrono::Local::now().format("%Y-%m-%d").to_string()
}

/// A fresh random identifier: `uuid::Uuid::new_v4()` in its hyphenated
/// lowercase form, which always has 36 characters.
#[verifier::external_body]
pub(crate) fn new_id() -> (r: String)
    ensures
        r@.len() == 36,
{
    uuid::Uuid::new_v4().to_string()
}

} // verus!
