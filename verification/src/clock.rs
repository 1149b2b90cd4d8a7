//! The clock.

use std::time::{Duration, SystemTime, SystemTimeError};
use vstd::prelude::*;

verus! {

/// `std::time::SystemTime`, a reading of the system's clock.
#[verifier::external_type_specification]
#[verifier::external_body]
pub struct ExSystemTime(SystemTime);

/// `std::time::SystemTimeError`, for a time that lies before another.
#[verifier::external_type_specification]
#[verifier::external_body]
pub struct ExSystemTimeError(SystemTimeError);

/// How long a time lies after the start of 1970; `None` where it lies before.
pub uninterp spec fn since_1970(time: SystemTime) -> Option<Duration>;

/// The whole milliseconds of a duration.
pub uninterp spec fn whole_millis(duration: Duration) -> u128;

/// `SystemTime::now`: a reading of the system's clock, which may be any.
pub assume_specification[ SystemTime::now ]() -> (r: SystemTime);

/// `SystemTime::duration_since`, from `SystemTime::UNIX_EPOCH`: how long a time lies
/// after the start of 1970, or an error where it lies before. The result depends on
/// the time alone.
#[verifier::external_body]
fn duration_since_1970(time: SystemTime) -> (r: Result<Duration, SystemTimeError>)
    ensures
        (match r {
            Ok(duration) => Some(duration),
            Err(_) => None,
        }) == since_1970(time),
{
    time.duration_since(SystemTime::UNIX_EPOCH)
}

/// `Duration::as_millis`: the whole milliseconds of a duration. The result depends on
/// the duration alone.
pub assume_specification[ Duration::as_millis ](duration: &Duration) -> (r: u128)
    ensures
        r == whole_millis(*duration),
;

/// The milliseconds that a clock shows, in 64 bits; 0 for a clock that stands before
/// its start.
pub open spec fn shown_millis(elapsed: Option<u128>) -> u64 {
    match elapsed {
        Some(ms) => (ms % 0x1_0000_0000_0000_0000) as u64,
        None => 0,
    }
}

/// The milliseconds from the start of 1970 to a time, in 64 bits; 0 where the time
/// lies before it.
pub open spec fn epoch_millis(time: SystemTime) -> u64 {
    shown_millis(
        match since_1970(time) {
            Some(duration) => Some(whole_millis(duration)),
            None => None,
        },
    )
}

/// The milliseconds that a clock shows, in 64 bits; 0 for a clock that stands before
/// its start.
pub fn clock_millis(elapsed: Option<u128>) -> (r: u64)
    ensures
        r == shown_millis(elapsed),
{
    match elapsed {
        Some(ms) => (ms % 0x1_0000_0000_0000_0000) as u64,
        None => 0,
    }
}

/// The milliseconds from the start of 1970 to a time; 0 where the time lies before it.
pub fn millis_at(time: SystemTime) -> (r: u64)
    ensures
        r == epoch_millis(time),
{
    let elapsed: Option<u128> = match duration_since_1970(time) {
        Ok(duration) => Some(duration.as_millis()),
        Err(_) => None,
    };
    clock_millis(elapsed)
}

/// The time now, in milliseconds since 1970: those of the reading that
/// the clock gave.
pub fn now_ms() -> (r: u64)
    ensures
        exists|now: SystemTime|
            r == #[trigger] epoch_millis(now) && call_ensures(SystemTime::now, (), now),
{
    let now: SystemTime = SystemTime::now();
    assert(call_ensures(SystemTime::now, (), now));
    millis_at(now)
}

} // verus!
