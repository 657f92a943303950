use vstd::prelude::*;

use std::time::{Duration, SystemTime, SystemTimeError};

verus! {

#[verifier::external_type_specification]
#[verifier::external_body]
pub struct ExSystemTime(SystemTime);

/// Relies on std::time::SystemTime::now: the wall-clock time. Nothing is
/// promised of the value, which depends on the machine's clock.
#[verifier::external_body]
pub(crate) fn system_now() -> (r: SystemTime) {
    SystemTime::now()
}

#[verifier::external_type_specification]
#[verifier::external_body]
pub struct ExSystemTimeError(SystemTimeError);

/// Relies on std::time::SystemTime::duration_since, measured from the Unix
/// epoch: `Ok` with the time elapsed since the epoch, `Err` when `t` lies
/// before it. Nothing is promised of the value.
#[verifier::external_body]
fn duration_since_epoch(t: &SystemTime) -> (r: Result<Duration, SystemTimeError>) {
    t.duration_since(std::time::UNIX_EPOCH)
}

/// Relies on std::time::SystemTimeError::duration: how far the instant lay
/// before the reference point.
#[verifier::external_body]
fn time_error_duration(e: &SystemTimeError) -> (r: Duration) {
    e.duration()
}

/// Relies on std::time::Duration::as_millis: the whole milliseconds of `d`.
#[verifier::external_body]
fn duration_millis(d: &Duration) -> (r: u128) {
    d.as_millis()
}

/// The offset of `t` from the Unix epoch: `Ok` with the milliseconds after
/// the epoch, `Err` with the milliseconds before it.
pub(crate) fn epoch_offset_millis(t: &SystemTime) -> (r: Result<u128, u128>) {
    match duration_since_epoch(t) {
        Ok(after) => Ok(duration_millis(&after)),
        Err(e) => Err(duration_millis(&time_error_duration(&e))),
    }
}

/// A clock offset from the epoch as signed milliseconds, clamped to the range
/// of `i64`.
pub open spec fn spec_epoch_millis(offset: Result<u128, u128>) -> i64 {
    match offset {
        Ok(ms) => if ms > i64::MAX {
            i64::MAX
        } else {
            ms as i64
        },
        Err(ms) => if ms > i64::MAX {
            -i64::MAX as i64
        } else {
            -(ms as int) as i64
        },
    }
}

/// Signed milliseconds since the epoch of a clock offset.
pub fn epoch_millis(offset: Result<u128, u128>) -> (r: i64)
    ensures
        r == spec_epoch_millis(offset),
{
    match offset {
        Ok(ms) => if ms > i64::MAX as u128 {
            i64::MAX
        } else {
            ms as i64
        },
        Err(ms) => if ms > i64::MAX as u128 {
            -i64::MAX
        } else {
            -(ms as i64)
        },
    }
}

/// The seconds counter that a handshake carries for a clock offset: whole
/// seconds since the epoch truncated to 32 bits, or `None` for an instant
/// before the epoch.
pub open spec fn spec_handshake_seconds(offset: Result<u128, u128>) -> Option<u32> {
    match offset {
        Ok(ms) => Some((ms / 1000) as u32),
        Err(_) => None,
    }
}

/// The seconds counter that a handshake carries for a clock offset.
pub fn handshake_seconds(offset: Result<u128, u128>) -> (r: Option<u32>)
    ensures
        r == spec_handshake_seconds(offset),
{
    match offset {
        Ok(ms) => Some((ms / 1000) as u32),
        Err(_) => None,
    }
}

/// The current time as signed milliseconds since the Unix epoch.
pub(crate) fn now_millis() -> (r: i64)
    ensures
        exists|offset: Result<u128, u128>| r == spec_epoch_millis(offset),
{
    let offset = epoch_offset_millis(&system_now());
    epoch_millis(offset)
}

} // verus!
