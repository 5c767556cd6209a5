//! The counter: the caller's own, or the number of time steps since the
//! Unix epoch.

use crate::error::Error;
use std::time::{Duration, SystemTime, SystemTimeError};
use vstd::prelude::*;

verus! {

/// The length of a time step, in seconds.
pub const TIME_STEP: u64 = 30;

/// The counter of the time step that holds the moment `seconds` after the
/// Unix epoch: `seconds` divided by the step, rounded down.
pub open spec fn time_step(seconds: u64) -> u64 {
    seconds / TIME_STEP
}

/// The counter that a reading of the clock comes to. The reading is the
/// whole seconds since the Unix epoch, or `None` where the clock stands
/// before the epoch.
pub open spec fn clock_counter(elapsed: Option<u64>) -> Result<u64, Error> {
    match elapsed {
        Some(seconds) => Ok(time_step(seconds)),
        None => Err(Error::ClockError),
    }
}

/// A moment of the system clock.
#[verifier::external_type_specification]
#[verifier::external_body]
pub struct ExSystemTime(std::time::SystemTime);

/// What the system clock reports where one moment is asked to lie before
/// another and does not.
#[verifier::external_type_specification]
#[verifier::external_body]
pub struct ExSystemTimeError(std::time::SystemTimeError);

/// `SystemTime::now` reads the system clock: nothing is known of the moment.
pub assume_specification[ SystemTime::now ]() -> (now: SystemTime);

/// Calls `SystemTime::duration_since` with `SystemTime::UNIX_EPOCH`, which
/// gives the time from the Unix epoch to `time`, or an error where `time`
/// lies before the epoch. Nothing is known of either.
#[verifier::external_body]
pub(crate) fn since_epoch(time: &SystemTime) -> (elapsed: Result<Duration, SystemTimeError>) {
    time.duration_since(SystemTime::UNIX_EPOCH)
}

/// `Duration::as_secs` gives the whole seconds of a duration, of which
/// nothing is known here.
pub assume_specification[ Duration::as_secs ](duration: &Duration) -> (seconds: u64);

/// The counter for a moment given in seconds since the Unix epoch.
pub fn counter_at(seconds: u64) -> (counter: u64)
    ensures
        counter == time_step(seconds),
        counter * TIME_STEP <= seconds < (counter + 1) * TIME_STEP,
{
    seconds / TIME_STEP
}

/// The counter for a reading of the clock.
pub fn counter_from_clock(elapsed: Option<u64>) -> (counter: Result<u64, Error>)
    ensures
        counter == clock_counter(elapsed),
{
    match elapsed {
        Some(seconds) => Ok(counter_at(seconds)),
        None => Err(Error::ClockError),
    }
}

/// Reads the clock: the whole seconds since the Unix epoch, or `None` where
/// the clock stands before it.
fn unix_seconds() -> Option<u64> {
    let now = SystemTime::now();
    match since_epoch(&now) {
        Ok(elapsed) => Some(elapsed.as_secs()),
        Err(_) => None,
    }
}

/// The counter to use: `seed` where the caller gives one, else the time
/// step of the present moment. The clock is read only where it is needed.
pub fn derive_counter(seed: Option<u64>) -> (counter: Result<u64, Error>)
    ensures
        seed matches Some(c) ==> counter == Ok::<u64, Error>(c),
        seed is None ==> exists|elapsed: Option<u64>| counter == #[trigger] clock_counter(elapsed),
{
    match seed {
        Some(c) => Ok(c),
        None => counter_from_clock(unix_seconds()),
    }
}

} // verus!
