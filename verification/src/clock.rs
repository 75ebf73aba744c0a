//! The engine's monotonic time source.
//!
//! Time is read through two trusted wrappers over `std::time::Instant`.
//! Nothing is assumed of the values they return: a clock reading depends on
//! when it is made, so the engine's contracts treat timestamps as an
//! auxiliary plausibility signal, never as part of the chain's integrity.

use vstd::prelude::*;

verus! {

#[verifier::external_type_specification]
#[verifier::external_body]
pub struct ExInstant(std::time::Instant);

/// Relies on `std::time::Instant::now`: an opaque reference point on the
/// monotonic clock. The value depends on the time of the call, so the
/// contract promises nothing of it.
#[verifier::external_body]
pub(crate) fn instant_now() -> std::time::Instant {
    std::time::Instant::now()
}

/// Relies on `std::time::Instant::elapsed` (with `Duration::as_micros` to
/// read the result out): the microseconds since `start`, truncated to 64
/// bits. The value depends on the time of the call, so the contract
/// promises nothing of it.
#[verifier::external_body]
pub(crate) fn elapsed_micros(start: &std::time::Instant) -> u64 {
    start.elapsed().as_micros() as u64
}

} // verus!
