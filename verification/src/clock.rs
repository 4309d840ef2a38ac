//! The wall clock, read as milliseconds since the Unix epoch.

use std::time::{Duration, SystemTime, SystemTimeError};
use vstd::prelude::*;

verus! {

/// `std::time::SystemTime`, a point in time as the system clock measures
/// it. Nothing is known of what a value holds.
#[verifier::external_type_specification]
#[verifier::external_body]
pub struct ExSystemTime(SystemTime);

/// `std::time::SystemTimeError`, the error of a time that lies before the
/// time it is measured from. Nothing is known of what a value holds.
#[verifier::external_type_specification]
#[verifier::external_body]
pub struct ExSystemTimeError(SystemTimeError);

/// `SystemTime::now` reads the system clock. Nothing is claimed of what it
/// returns: the clock can be set, and can go backwards.
pub assume_specification[ SystemTime::now ]() -> (now: SystemTime);

/// `SystemTime::duration_since`, asked for the time that has passed between
/// the Unix epoch (`SystemTime::UNIX_EPOCH`) and `time`. It gives an error
/// where `time` lies before the epoch. Nothing is claimed of the duration.
#[verifier::external_body]
fn since_epoch(time: &SystemTime) -> (elapsed: Result<Duration, SystemTimeError>) {
    time.duration_since(SystemTime::UNIX_EPOCH)
}

/// `Duration::as_millis` gives the whole milliseconds of a duration.
/// Nothing is claimed of the number.
pub assume_specification[ Duration::as_millis ](duration: &Duration) -> (millis: u128);

/// The time of the system clock in milliseconds since the Unix epoch; 0
/// where the clock is set to a time before the epoch.
pub fn now_millis() -> u128 {
    let now = SystemTime::now();
    let elapsed_ms = match since_epoch(&now) {
        Ok(elapsed) => Some(elapsed.as_millis()),
        Err(_) => None,
    };
    millis_since_epoch(elapsed_ms)
}

/// What a clock reads in milliseconds since the Unix epoch, given the
/// milliseconds that have passed since the epoch, or `None` for a clock that
/// is set to a time before it: such a clock reads 0.
pub fn millis_since_epoch(elapsed_ms: Option<u128>) -> (millis: u128)
    ensures
        millis == match elapsed_ms {
            Some(ms) => ms,
            None => 0,
        },
{
    match elapsed_ms {
        Some(ms) => ms,
        None => 0,
    }
}

} // verus!
