//! Wall-clock time since the unix epoch.
use std::time::{Duration, SystemTime, SystemTimeError, UNIX_EPOCH};
use vstd::prelude::*;

verus! {

#[verifier::external_type_specification]
#[verifier::external_body]
pub struct ExSystemTime(SystemTime);

#[verifier::external_type_specification]
#[verifier::external_body]
pub struct ExSystemTimeError(SystemTimeError);

/// Relies on `std::time::SystemTime::now`: the system clock's current time.
#[verifier::external_body]
fn system_now() -> SystemTime {
    SystemTime::now()
}

/// Relies on `SystemTime::duration_since`: the time from the unix epoch to
/// `t`, or an error where `t` is earlier than the epoch.
#[verifier::external_body]
fn since_epoch(t: &SystemTime) -> Result<Duration, SystemTimeError> {
    t.duration_since(UNIX_EPOCH)
}

/// Relies on `Duration::as_millis`: the whole milliseconds of a duration.
#[verifier::external_body]
fn whole_millis(d: &Duration) -> u128 {
    d.as_millis()
}

/// Milliseconds since the unix epoch, or `None` where the system clock is
/// set before the epoch.
pub fn unix_timestamp() -> Option<u128> {
    match since_epoch(&system_now()) {
        Ok(d) => Some(whole_millis(&d)),
        Err(_) => None,
    }
}

} // verus!
