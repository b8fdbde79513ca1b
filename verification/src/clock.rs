//! Token expiry against the system clock.
use std::time::{Duration, SystemTime, SystemTimeError};
use vstd::prelude::*;

verus! {

/// A reading of the system clock.
#[verifier::external_type_specification]
#[verifier::external_body]
pub struct ExSystemTime(std::time::SystemTime);

/// Why one reading of the system clock is not after another.
#[verifier::external_type_specification]
#[verifier::external_body]
pub struct ExSystemTimeError(std::time::SystemTimeError);

/// `SystemTime::now` of the standard library: what the clock reads. Nothing is
/// claimed of it.
pub assume_specification[ std::time::SystemTime::now ]() -> SystemTime
;

/// The time from the Unix epoch to a reading of the clock, or that the reading
/// is of a time before the epoch.
pub uninterp spec fn time_since_epoch(time: SystemTime) -> Result<Duration, SystemTimeError>;

/// `SystemTime::duration_since` of the standard library, from the Unix epoch,
/// under the name [`time_since_epoch`]. The clock may read any time, one before
/// the epoch too, so it is not said when the result is `Ok`.
#[verifier::external_body]
fn since_epoch(time: SystemTime) -> (r: Result<Duration, SystemTimeError>)
    ensures
        r == time_since_epoch(time),
{
    time.duration_since(std::time::UNIX_EPOCH)
}

/// The whole milliseconds of a duration.
pub uninterp spec fn whole_millis(d: Duration) -> u128;

/// `Duration::as_millis` of the standard library: the whole milliseconds of a
/// duration, under the name [`whole_millis`].
pub assume_specification[ std::time::Duration::as_millis ](d: &Duration) -> (r: u128)
    ensures
        r == whole_millis(*d),
;

/// The milliseconds of the time since the Unix epoch; 0 for a time before it.
pub open spec fn epoch_millis(elapsed: Result<Duration, SystemTimeError>) -> u128 {
    match elapsed {
        Ok(elapsed) => whole_millis(elapsed),
        Err(_) => 0,
    }
}

/// The milliseconds of the time since the Unix epoch, as the clock gives it; 0
/// for a clock that reads a time before it.
pub fn millis_since_epoch(elapsed: Result<Duration, SystemTimeError>) -> (r: u128)
    ensures
        r == epoch_millis(elapsed),
{
    match elapsed {
        Ok(elapsed) => elapsed.as_millis(),
        Err(_) => 0,
    }
}

/// Whether something that expires at `expires` has expired at `now`, both in
/// milliseconds since the Unix epoch.
pub open spec fn expired(expires: u64, now: u128) -> bool {
    now >= expires
}

/// Whether something that expires at `expires` has expired at `now`, both in
/// milliseconds since the Unix epoch.
pub fn is_expired_at(expires: u64, now: u128) -> (r: bool)
    ensures
        r == expired(expires, now),
{
    now >= expires as u128
}

/// Whether something that expires at `expires`, in milliseconds since the Unix
/// epoch, has expired by the system clock.
pub fn is_expired(expires: u64) -> (r: bool)
    ensures
        exists|time: SystemTime|
            r == expired(expires, epoch_millis(#[trigger] time_since_epoch(time))),
        expires == 0 ==> r,
{
    let elapsed = since_epoch(SystemTime::now());
    is_expired_at(expires, millis_since_epoch(elapsed))
}

/// What has expired stays expired.
pub proof fn expiry_is_final(expires: u64, now: u128, later: u128)
    requires
        expired(expires, now),
        now <= later,
    ensures
        expired(expires, later),
{
}

/// What expires at a time, has not expired before it, and has from it on.
pub proof fn nothing_expires_early_or_late(expires: u64, now: u128, r: bool)
    requires
        call_ensures(is_expired_at, (expires, now), r),
    ensures
        now < expires ==> !r,
        now == expires ==> r,
        now > expires ==> r,
        r == expired(expires, now),
{
}

/// The milliseconds of a time since the epoch are its whole ones, and none for a time
/// before it.
pub proof fn time_before_the_epoch_counts_as_none(
    elapsed: Result<Duration, SystemTimeError>,
    r: u128,
)
    requires
        call_ensures(millis_since_epoch, (elapsed,), r),
    ensures
        elapsed matches Ok(elapsed) ==> r == whole_millis(elapsed),
        elapsed is Err ==> r == 0,
{
}

/// Expiry by the system clock is expiry at a reading of it.
pub proof fn the_clock_decides(expires: u64, r: bool)
    requires
        call_ensures(is_expired, (expires,), r),
    ensures
        exists|time: SystemTime|
            match #[trigger] time_since_epoch(time) {
                Ok(elapsed) => r == (whole_millis(elapsed) >= expires),
                Err(_) => r == (expires == 0),
            },
{
    let time = choose|time: SystemTime|
        r == expired(expires, epoch_millis(#[trigger] time_since_epoch(time)));
    assert(match time_since_epoch(time) {
        Ok(elapsed) => r == (whole_millis(elapsed) >= expires),
        Err(_) => r == (expires == 0),
    });
}

} // verus!
