//! The wall clock, read as milliseconds since the Unix epoch.

use vstd::prelude::*;
use std::time::{Duration, SystemTime, SystemTimeError, UNIX_EPOCH};
use crate::error::CuidError;

verus! {

/// A point in time of the system clock, from std, carried through as it is.
#[verifier::external_type_specification]
#[verifier::external_body]
pub struct ExSystemTime(SystemTime);

/// `SystemTime::now` of std reads the system clock. Nothing is claimed of
/// the time it returns.
pub assume_specification[ SystemTime::now ]() -> (time: SystemTime);

/// Calls `SystemTime::duration_since` of std with the Unix epoch as the
/// earlier time: the span from the epoch to `time`, or the error that std
/// returns when `time` lies before it. Nothing is claimed of the span.
#[verifier::external_body]
fn since_unix_epoch(time: &SystemTime) -> (elapsed: Result<Duration, SystemTimeError>) {
    time.duration_since(UNIX_EPOCH)
}

/// The whole milliseconds of a span, as `Duration::as_millis` of std counts
/// them.
pub uninterp spec fn span_millis(span: Duration) -> u128;

/// `Duration::as_millis` of std gives the whole milliseconds of a span: a
/// number that depends on the span alone, which `span_millis` names.
pub assume_specification[ Duration::as_millis ](span: &Duration) -> (millis: u128)
    ensures
        millis == span_millis(*span),
;

/// Turns the outcome of measuring the time since the epoch into whole
/// milliseconds: a span gives its milliseconds, a failed measurement gives
/// its error.
pub fn millis_from_elapsed(elapsed: Result<Duration, SystemTimeError>) -> (result: Result<
    u128,
    CuidError,
>)
    ensures
        match elapsed {
            Ok(span) => result == Ok::<u128, CuidError>(span_millis(span)),
            Err(err) => result == Err::<u128, CuidError>(CuidError::SystemTimeError(err)),
        },
{
    match elapsed {
        Ok(span) => Ok(span.as_millis()),
        Err(err) => Err(CuidError::SystemTimeError(err)),
    }
}

/// The current time in milliseconds since the Unix epoch: the milliseconds
/// of the span that was measured. Fails only when the clock stands before
/// the epoch.
pub fn unix_millis() -> (result: Result<u128, CuidError>)
    ensures
        match result {
            Ok(millis) => exists|span: Duration| millis == #[trigger] span_millis(span),
            Err(err) => err is SystemTimeError,
        },
{
    let now = SystemTime::now();
    millis_from_elapsed(since_unix_epoch(&now))
}

} // verus!
