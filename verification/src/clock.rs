//! The wall clock, read in whole seconds.

use std::time::{Duration, SystemTime, SystemTimeError};
use vstd::prelude::*;

verus! {

/// The system clock stands before the start of Unix time.
#[derive(Clone, Copy, Debug, PartialEq, Eq, Structural)]
pub struct ClockError;

/// `std::time::SystemTime`, a point in time as the system clock tells it.
/// Nothing of its inside is known here.
#[verifier::external_type_specification]
#[verifier::external_body]
pub struct ExSystemTime(SystemTime);

/// `std::time::SystemTimeError`, the error of a time difference that would
/// be negative. Nothing of its inside is known here.
#[verifier::external_type_specification]
#[verifier::external_body]
pub struct ExSystemTimeError(SystemTimeError);

/// `SystemTime::now` reads the system clock. Nothing is claimed of the
/// reading.
pub assume_specification[ SystemTime::now ]() -> (now: SystemTime);

/// What `SystemTime::duration_since` answers for two points in time: the
/// time from `earlier` to `later`, or its error where `earlier` is the
/// later one. It depends on the two points alone.
pub uninterp spec fn elapsed_between(
    later: SystemTime,
    earlier: SystemTime,
) -> Result<Duration, SystemTimeError>;

/// What `Duration::as_secs` answers for a duration: the whole seconds in
/// it. It depends on the duration alone.
pub uninterp spec fn whole_seconds(duration: Duration) -> u64;

/// `SystemTime::duration_since` measures the time from `earlier` to
/// `later`, and fails if `earlier` is the later one. The claim is that its
/// answer is a function of the two points, here called [`elapsed_between`].
pub assume_specification[ SystemTime::duration_since ](
    later: &SystemTime,
    earlier: SystemTime,
) -> (elapsed: Result<Duration, SystemTimeError>)
    ensures
        elapsed == elapsed_between(*later, earlier),
;

/// `Duration::as_secs` gives the whole seconds of a duration. The claim is
/// that their number is a function of the duration, here called
/// [`whole_seconds`].
pub assume_specification[ Duration::as_secs ](duration: &Duration) -> (seconds: u64)
    ensures
        seconds == whole_seconds(*duration),
;

/// Hands out `std::time::UNIX_EPOCH`, the start of Unix time.
#[verifier::external_body]
fn unix_epoch() -> (epoch: SystemTime) {
    std::time::UNIX_EPOCH
}

/// The seconds told of the time from `earlier` to `later`: the whole
/// seconds of that time, the rest dropped, and the failure, never a
/// number, where `earlier` is the later one.
pub open spec fn seconds_told(later: SystemTime, earlier: SystemTime) -> Result<u64, ClockError> {
    match elapsed_between(later, earlier) {
        Ok(gone) => Ok(whole_seconds(gone)),
        Err(_) => Err(ClockError),
    }
}

/// Tells the whole seconds that have passed from `earlier` to `later`, as
/// [`seconds_told`] says. Fails exactly when `later` stands before
/// `earlier`.
pub fn seconds_between(
    later: &SystemTime,
    earlier: SystemTime,
) -> (seconds: Result<u64, ClockError>)
    ensures
        seconds == seconds_told(*later, earlier),
{
    match later.duration_since(earlier) {
        Ok(gone) => Ok(gone.as_secs()),
        Err(_) => Err(ClockError),
    }
}

/// The whole seconds of Unix time that have passed on the system clock.
///
/// The clock is read once, and the answer is what [`seconds_told`] gives
/// for that reading and the start of Unix time. It fails only if the clock
/// stands before that start. Which reading the clock gives is not for this
/// library to say; the pages take the seconds as an argument and say what
/// they do with them.
pub fn get_cur_time() -> (seconds: Result<u64, ClockError>)
    ensures
        exists|start: SystemTime, epoch: SystemTime|
            seconds == #[trigger] seconds_told(start, epoch),
{
    let start: SystemTime = SystemTime::now();
    seconds_between(&start, unix_epoch())
}

} // verus!
