//! Small pieces the background workers share.
use vstd::prelude::*;

use crate::platform::read_unix_millis;

verus! {

/// The longest single sleep while waiting, so that a stop request is seen
/// quickly, in milliseconds.
pub const SLEEP_STEP_MS: u64 = 200;

/// A clock reading as milliseconds: the reading, or 0 for a clock before
/// the epoch.
pub fn millis_of(reading: Option<u128>) -> (r: u128)
    ensures
        r == match reading {
            Some(ms) => ms,
            None => 0,
        },
{
    match reading {
        Some(ms) => ms,
        None => 0,
    }
}

/// The milliseconds since the Unix epoch, or 0 when the clock is before
/// the epoch.
pub fn now_unix_millis() -> (r: u128) {
    millis_of(read_unix_millis())
}

/// One step of a long wait that checks for a stop request between steps:
/// the time to sleep now and the time left after it.
pub fn sleep_step(remaining_ms: u64) -> (r: (u64, u64))
    ensures
        r.0 == (if remaining_ms < SLEEP_STEP_MS {
            remaining_ms
        } else {
            SLEEP_STEP_MS
        }),
        r.0 + r.1 == remaining_ms,
        remaining_ms > 0 ==> r.1 < remaining_ms,
{
    let step = if remaining_ms < SLEEP_STEP_MS {
        remaining_ms
    } else {
        SLEEP_STEP_MS
    };
    (step, remaining_ms - step)
}

} // verus!
