//! The wall clock.

use std::time::{Duration, SystemTime, UNIX_EPOCH};
use vstd::prelude::*;

verus! {

/// A reading of the system clock. Verus sees nothing inside it.
#[verifier::external_type_specification]
#[verifier::external_body]
pub struct ExSystemTime(std::time::SystemTime);

/// The system clock now, from `SystemTime::now`. Nothing is known of a
/// reading: two calls may give anything.
#[verifier::external_body]
fn system_now() -> SystemTime {
    SystemTime::now()
}

/// The time from the Unix epoch to `time`, from `SystemTime::duration_since`.
/// There is none if `time` is before the epoch.
#[verifier::external_body]
fn since_epoch(time: &SystemTime) -> Option<Duration> {
    time.duration_since(UNIX_EPOCH).ok()
}

/// The whole milliseconds of a duration, from `Duration::as_millis`.
#[verifier::external_body]
fn whole_millis(duration: &Duration) -> u128 {
    duration.as_millis()
}

/// The milliseconds that a reading of the clock lies after the Unix epoch;
/// zero for a reading before it.
pub fn millis_since_epoch(elapsed: Option<u128>) -> (ms: u128)
    ensures
        ms == match elapsed {
            Some(millis) => millis,
            None => 0,
        },
{
    match elapsed {
        Some(millis) => millis,
        None => 0,
    }
}

/// The time now, in milliseconds since the Unix epoch. A clock that stands
/// before the epoch reads as zero.
pub fn get_ts_ms() -> u128 {
    let now = system_now();
    let elapsed = match since_epoch(&now) {
        Some(duration) => Some(whole_millis(&duration)),
        None => None,
    };
    millis_since_epoch(elapsed)
}

/// A time stamp for a metric: `ms`, or the largest stamp there is if `ms`
/// does not fit in 64 bits.
pub fn metric_timestamp(ms: u128) -> (stamp: u64)
    ensures
        stamp == if ms <= u64::MAX {
            ms as u64
        } else {
            u64::MAX
        },
{
    if ms <= u64::MAX as u128 {
        ms as u64
    } else {
        u64::MAX
    }
}

} // verus!
