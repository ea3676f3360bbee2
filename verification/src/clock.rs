//! The time, in milliseconds since the start of 1970.

use std::time::{Duration, SystemTime, SystemTimeError, UNIX_EPOCH};
use vstd::prelude::*;

verus! {

/// The outside type `std::time::SystemTime`, a reading of the system's clock.
#[verifier::external_type_specification]
#[verifier::external_body]
pub struct ExSystemTime(std::time::SystemTime);

/// The outside type `std::time::SystemTimeError`, which says that a reading lies
/// before the one it was measured from.
#[verifier::external_type_specification]
#[verifier::external_body]
pub struct ExSystemTimeError(std::time::SystemTimeError);

/// How long after the start of 1970 a reading of the clock is, or nothing where it is
/// earlier.
pub uninterp spec fn since_epoch(time: std::time::SystemTime) -> Option<std::time::Duration>;

/// The whole milliseconds in a duration.
pub uninterp spec fn whole_millis(duration: std::time::Duration) -> u128;

/// `SystemTime::now`: whatever the system's clock shows.
#[verifier::external_body]
fn system_now() -> (time: SystemTime) {
    SystemTime::now()
}

/// `SystemTime::duration_since` with the start of 1970: how long after it the reading
/// is, and an error where it is earlier. The answer depends on the reading alone.
#[verifier::external_body]
fn duration_since_epoch(time: &SystemTime) -> (duration: Result<Duration, SystemTimeError>)
    ensures
        (match duration {
            Ok(duration) => since_epoch(*time) == Some(duration),
            Err(_) => since_epoch(*time) is None,
        }),
{
    time.duration_since(UNIX_EPOCH)
}

/// `Duration::as_millis`: the number of whole milliseconds, which depends on the
/// duration alone.
#[verifier::external_body]
fn duration_as_millis(duration: &Duration) -> (millis: u128)
    ensures
        millis == whole_millis(*duration),
{
    duration.as_millis()
}

/// A number of milliseconds that fits: zero for none, and the largest number where
/// there are more.
pub open spec fn clamped(millis: Option<u128>) -> u64 {
    match millis {
        None => 0,
        Some(millis) => if millis > u64::MAX {
            u64::MAX
        } else {
            millis as u64
        },
    }
}

/// Makes a number of milliseconds fit.
pub fn clamp_millis(millis: Option<u128>) -> (clamped_millis: u64)
    ensures
        clamped_millis == clamped(millis),
{
    match millis {
        None => 0,
        Some(millis) => if millis > u128::from(u64::MAX) {
            u64::MAX
        } else {
            millis as u64
        },
    }
}

/// A reading of the clock in milliseconds since the start of 1970.
pub open spec fn unix_millis(time: SystemTime) -> u64 {
    match since_epoch(time) {
        Some(duration) => clamped(Some(whole_millis(duration))),
        None => clamped(None),
    }
}

/// A reading of the clock in milliseconds since the start of 1970: zero where it is
/// earlier, and the largest number where it is too late to be counted.
pub fn unix_ms(time: &SystemTime) -> (ms: u64)
    ensures
        ms == unix_millis(*time),
{
    match duration_since_epoch(time) {
        Ok(duration) => clamp_millis(Some(duration_as_millis(&duration))),
        Err(_) => clamp_millis(None),
    }
}

/// The milliseconds since the start of 1970 that the system's clock shows.
pub fn current_unix_ms() -> (ms: u64)
    ensures
        exists|time: SystemTime| ms == #[trigger] unix_millis(time),
{
    let time = system_now();
    unix_ms(&time)
}

} // verus!
