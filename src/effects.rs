//! Calls into outside crates that the logic needs: fresh identifiers, the
//! wall clock and randomized jitter.

use vstd::prelude::*;

verus! {

/// Relies on `uuid::Uuid::new_v4` and `Uuid::as_u128`: a random identifier,
/// of which nothing is promised.
#[verifier::external_body]
pub(crate) fn fresh_id() -> (r: u128) {
    uuid::Uuid::new_v4().as_u128()
}

/// Relies on `chrono::Utc::now` and `DateTime::timestamp_millis`: the current
/// time in milliseconds since the epoch, of which nothing is promised.
#[verifier::external_body]
pub(crate) fn now_millis() -> (r: i64) {
    chrono::Utc::now().timestamp_millis()
}

/// Delays up to this many milliseconds go through `f64` seconds and back
/// with an error far below a millisecond.
pub const JITTER_LIMIT_MS: u64 = 1_000_000_000;

/// Relies on `tokio_retry::strategy::jitter`, which scales the delay by a
/// random factor in `[0, 1)` through `Duration::mul_f64`: below the limit
/// the result never exceeds the delay.
#[verifier::external_body]
pub(crate) fn jitter_ms(delay: u64) -> (r: u64)
    requires
        delay <= JITTER_LIMIT_MS,
    ensures
        r <= delay,
{
    tokio_retry::strategy::jitter(std::time::Duration::from_millis(delay)).as_millis() as u64
}

} // verus!
