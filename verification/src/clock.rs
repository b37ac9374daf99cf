//! Time: the wall clock in Unix seconds and a monotonic clock for
//! measuring durations. Nothing is stated of the values read: they are the
//! time.

use vstd::prelude::*;
use std::time::{Duration, Instant, SystemTime};

verus! {

#[verifier::external_type_specification]
#[verifier::external_body]
pub struct ExSystemTime(SystemTime);

#[verifier::external_type_specification]
#[verifier::external_body]
pub struct ExInstant(Instant);

/// `SystemTime::now`: the current wall-clock time.
#[verifier::external_body]
fn system_time_now() -> SystemTime {
    SystemTime::now()
}

/// `SystemTime::duration_since(UNIX_EPOCH)`: the time since the epoch;
/// `None` for a time before the epoch.
#[verifier::external_body]
fn since_epoch(t: &SystemTime) -> Option<Duration> {
    t.duration_since(std::time::UNIX_EPOCH).ok()
}

/// `Duration::as_secs`: whole seconds of a duration.
#[verifier::external_body]
fn duration_secs(d: &Duration) -> u64 {
    d.as_secs()
}

/// `Instant::now`: the current reading of the monotonic clock.
#[verifier::external_body]
pub(crate) fn instant_now() -> Instant {
    Instant::now()
}

/// `Instant::elapsed`: the time since `start` (zero if the clock went back).
#[verifier::external_body]
fn elapsed_since(start: &Instant) -> Duration {
    start.elapsed()
}

/// `Duration::as_millis`: whole milliseconds of a duration.
#[verifier::external_body]
fn duration_millis(d: &Duration) -> u128 {
    d.as_millis()
}

/// Whole milliseconds since `start` (truncated to 64 bits).
pub(crate) fn millis_since(start: &Instant) -> u64 {
    let ms = duration_millis(&elapsed_since(start));
    #[verifier::truncate]
    (ms as u64)
}

/// Seconds since the Unix epoch by the system clock, 0 when the clock is
/// set before the epoch.
pub fn now_secs() -> u64 {
    match since_epoch(&system_time_now()) {
        Some(d) => duration_secs(&d),
        None => 0,
    }
}

} // verus!
