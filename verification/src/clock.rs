//! Wall-clock time as the fabric counts it: nanoseconds since the Unix epoch.
//!
//! Reading the clock is left to `std`; what is read is handed on as a plain
//! number, and every rule that depends on time takes that number as an
//! argument.
use crate::error::FabricError;
use std::time::{Duration, SystemTime, UNIX_EPOCH};
use vstd::prelude::*;

verus! {

/// A point of the system clock.
#[verifier::external_type_specification]
#[verifier::external_body]
pub struct ExSystemTime(SystemTime);

/// The nanoseconds in one second.
pub const NANOS_PER_SECOND: u128 = 1_000_000_000;

/// `std::time::SystemTime::now`: the clock's reading, of which nothing can be
/// said beforehand.
#[verifier::external_body]
pub(crate) fn system_now() -> SystemTime {
    SystemTime::now()
}

/// `std::time::SystemTime::duration_since`, with the Unix epoch as the earlier
/// point: the time elapsed since the epoch, or the error's words where the
/// clock stands before it.
#[verifier::external_body]
pub(crate) fn since_epoch(time: &SystemTime) -> Result<Duration, String> {
    time.duration_since(UNIX_EPOCH).map_err(|e| e.to_string())
}

/// `std::time::Duration::as_nanos`: the whole span in nanoseconds.
#[verifier::external_body]
pub(crate) fn nanoseconds(span: &Duration) -> u128 {
    span.as_nanos()
}

/// The whole seconds in `nanos` nanoseconds, held at the largest 64-bit
/// number where they would not fit.
pub open spec fn whole_seconds(nanos: u128) -> u64 {
    if nanos / NANOS_PER_SECOND <= u64::MAX {
        (nanos / NANOS_PER_SECOND) as u64
    } else {
        u64::MAX
    }
}

/// The whole seconds in `nanos` nanoseconds.
pub fn seconds_of(nanos: u128) -> (secs: u64)
    ensures
        secs == whole_seconds(nanos),
{
    let secs = nanos / NANOS_PER_SECOND;
    if secs <= u64::MAX as u128 {
        secs as u64
    } else {
        u64::MAX
    }
}

/// What a look at the clock comes to: the nanoseconds since the epoch as they
/// were counted, or, where the clock stands before the epoch, an `Other`
/// error with the words that say so.
pub fn reading_of(elapsed: Result<u128, String>) -> (reading: Result<u128, FabricError>)
    ensures
        match elapsed {
            Ok(nanos) => reading == Ok::<u128, FabricError>(nanos),
            Err(reason) => reading == Err::<u128, FabricError>(FabricError::Other(reason)),
        },
{
    match elapsed {
        Ok(nanos) => Ok(nanos),
        Err(reason) => Err(FabricError::Other(reason)),
    }
}

/// The time to go by after a look at the clock: what was read, or the epoch
/// itself where the clock stands before it.
pub fn reading_or_epoch(reading: Result<u128, FabricError>) -> (nanos: u128)
    ensures
        nanos == match reading {
            Ok(read) => read,
            Err(_) => 0,
        },
{
    match reading {
        Ok(read) => read,
        Err(_) => 0,
    }
}

/// Reads the clock: nanoseconds since the Unix epoch, or an error where the
/// clock stands before the epoch. What is read is the clock's to say; what
/// becomes of it is `reading_of`.
pub fn now() -> (reading: Result<u128, FabricError>)
    ensures
        reading matches Err(e) ==> e is Other,
{
    let time = system_now();
    let elapsed = match since_epoch(&time) {
        Ok(span) => Ok(nanoseconds(&span)),
        Err(reason) => Err(reason),
    };
    reading_of(elapsed)
}

/// Reads the clock, taking a clock that stands before the epoch for the epoch
/// itself. What is read is the clock's to say; what becomes of it is
/// `reading_or_epoch`.
pub fn now_or_epoch() -> u128 {
    reading_or_epoch(now())
}

} // verus!
