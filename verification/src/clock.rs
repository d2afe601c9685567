//! The wall clock, in milliseconds since the Unix epoch.

use std::time::{Duration, SystemTime, SystemTimeError, UNIX_EPOCH};
use vstd::prelude::*;

verus! {

/// `std::time::SystemTime`, carried as an opaque value.
#[verifier::external_type_specification]
#[verifier::external_body]
pub struct ExSystemTime(SystemTime);

/// `std::time::SystemTimeError`, carried as an opaque value.
#[verifier::external_type_specification]
#[verifier::external_body]
pub struct ExSystemTimeError(SystemTimeError);

/// `SystemTime::now`: the current reading of the system clock. Nothing is
/// claimed of it; two readings need not even be in order.
#[verifier::external_body]
fn system_time_now() -> SystemTime {
    SystemTime::now()
}

/// `SystemTime::duration_since` against `UNIX_EPOCH`: the time from the epoch
/// to `t`, or an error when `t` lies before the epoch. Nothing is claimed of
/// the result.
#[verifier::external_body]
fn since_unix_epoch(t: &SystemTime) -> Result<Duration, SystemTimeError> {
    t.duration_since(UNIX_EPOCH)
}

/// `Duration::as_millis`: the whole milliseconds in `d`. Nothing is claimed
/// of the result.
#[verifier::external_body]
fn whole_millis(d: &Duration) -> u128 {
    d.as_millis()
}

/// `ms` as a signed timestamp; a count that does not fit becomes the largest
/// timestamp.
pub open spec fn clamp_millis(ms: u128) -> i64 {
    if ms > i64::MAX as u128 {
        i64::MAX
    } else {
        ms as i64
    }
}

/// Converts a millisecond count to a signed timestamp, saturating at the
/// largest one.
pub fn millis_to_timestamp(ms: u128) -> (r: i64)
    ensures
        r == clamp_millis(ms),
        r >= 0,
{
    if ms > i64::MAX as u128 {
        i64::MAX
    } else {
        ms as i64
    }
}

/// The current time in milliseconds since the Unix epoch. A clock that
/// stands before the epoch reads as 0, so the result is never negative.
pub fn unix_ms() -> (now: i64)
    ensures
        now >= 0,
{
    let t = system_time_now();
    match since_unix_epoch(&t) {
        Ok(d) => millis_to_timestamp(whole_millis(&d)),
        Err(_) => 0,
    }
}

} // verus!
