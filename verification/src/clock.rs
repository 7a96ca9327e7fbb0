//! The time of issue, read from the system clock.

use std::time::{Duration, SystemTime, SystemTimeError, UNIX_EPOCH};
use vstd::prelude::*;

verus! {

/// `std::time::SystemTime`, a reading of the system clock. Nothing is known of
/// its inside.
#[verifier::external_type_specification]
#[verifier::external_body]
pub struct ExSystemTime(SystemTime);

/// `std::time::SystemTimeError`, which says that one reading lies before
/// another. Nothing is known of its inside.
#[verifier::external_type_specification]
#[verifier::external_body]
pub struct ExSystemTimeError(SystemTimeError);

/// `SystemTime::now` of the standard library: the clock as it stands. Nothing
/// holds of every reading, so nothing is promised.
pub assume_specification[ SystemTime::now ]() -> SystemTime;

/// Calls `SystemTime::duration_since` of the standard library with the Unix
/// epoch: the time that has passed since the epoch, or an error where the
/// reading lies before it. Which of them comes depends on the clock.
#[verifier::external_body]
fn since_unix_epoch(time: &SystemTime) -> Result<Duration, SystemTimeError> {
    time.duration_since(UNIX_EPOCH)
}

/// What `Duration::as_secs` of the standard library returns for a duration: the
/// whole seconds that it holds, without the fraction of a second that it may
/// hold beside them.
pub uninterp spec fn duration_whole_seconds(duration: Duration) -> u64;

/// `Duration::as_secs` of the standard library: the whole seconds that the
/// duration holds. The same duration always gives the same number.
pub assume_specification[ Duration::as_secs ](duration: &Duration) -> (seconds: u64)
    ensures
        seconds == duration_whole_seconds(*duration),
;

/// The whole seconds of a time that has passed, or nothing where no time has
/// passed because the clock stood before the point to measure from.
pub open spec fn seconds_of(elapsed: Result<Duration, SystemTimeError>) -> Option<u64> {
    match elapsed {
        Ok(duration) => Some(duration_whole_seconds(duration)),
        Err(_) => None,
    }
}

/// The whole seconds of a time that has passed, where there is one.
pub fn whole_seconds(elapsed: Result<Duration, SystemTimeError>) -> (seconds: Option<u64>)
    ensures
        seconds == seconds_of(elapsed),
{
    match elapsed {
        Ok(duration) => Some(duration.as_secs()),
        Err(_) => None,
    }
}

/// The current time in whole seconds since the Unix epoch, or nothing where
/// the clock stands before the epoch. What the clock reads is not known
/// beforehand; the result is the whole seconds of what it read, the fraction
/// dropped.
pub fn get_current_unix_time() -> (seconds: Option<u64>)
    ensures
        exists|elapsed: Result<Duration, SystemTimeError>|
            seconds == #[trigger] seconds_of(elapsed),
{
    let now = SystemTime::now();
    let elapsed = since_unix_epoch(&now);
    let ghost reading = elapsed;
    let seconds = whole_seconds(elapsed);
    assert(seconds == seconds_of(reading));
    seconds
}

} // verus!
