//! Time and fresh identifiers, read from the outside world.

use vstd::prelude::*;
use std::time::{Duration, Instant};

verus! {

#[verifier::external_type_specification]
#[verifier::external_body]
pub struct ExInstant(Instant);

/// Upper bound on any wall-clock reading, in milliseconds since the Unix
/// epoch (past the latest year a chrono date can hold).
pub const CLOCK_MAX_MS: i64 = 9_000_000_000_000_000;

/// Relies on chrono's `Utc::now` and `DateTime::timestamp_millis`: the
/// current wall-clock time in milliseconds since the Unix epoch.  `Utc::now`
/// panics on a clock before the epoch, and a chrono date ends in the year
/// 262142, so a returned reading lies in `0..=CLOCK_MAX_MS`.
#[verifier::external_body]
pub(crate) fn now_millis() -> (r: i64)
    ensures
        0 <= r,
        r <= CLOCK_MAX_MS,
{
    chrono::Utc::now().timestamp_millis()
}

/// Relies on uuid's `Uuid::new_v4` and `Uuid::as_u128`: a random 128-bit
/// identifier.  Nothing is known of its value.
#[verifier::external_body]
pub(crate) fn fresh_id() -> (r: u128) {
    uuid::Uuid::new_v4().as_u128()
}

/// Relies on `Instant::now`: a reading of the monotonic clock.
#[verifier::external_body]
pub(crate) fn instant_now() -> (r: Instant) {
    Instant::now()
}

/// Relies on `Instant::elapsed`: the time since `start`.
#[verifier::external_body]
pub(crate) fn elapsed_since(start: &Instant) -> (r: Duration) {
    start.elapsed()
}

/// Relies on `Duration::as_nanos`: the whole nanoseconds of `d`.
#[verifier::external_body]
pub(crate) fn duration_nanos(d: &Duration) -> (r: u128) {
    d.as_nanos()
}

/// `n` narrowed to 64 bits, saturating at `u64::MAX`.
pub fn saturate_to_u64(n: u128) -> (r: u64)
    ensures
        r == (if n <= u64::MAX {
            n
        } else {
            u64::MAX as u128
        }),
{
    if n <= u64::MAX as u128 {
        n as u64
    } else {
        u64::MAX
    }
}

/// Nanoseconds since `start`, saturating at `u64::MAX`.
pub fn elapsed_nanos(start: &Instant) -> (r: u64) {
    let d = elapsed_since(start);
    saturate_to_u64(duration_nanos(&d))
}

} // verus!
