//! The monotonic clock by which the limiter dates requests.

use vstd::prelude::*;
use tokio::time::Instant;

verus! {

/// `tokio::time::Instant`, a reading of tokio's monotonic clock. Nothing of
/// what a value holds is known here: it is kept only to be handed back to
/// the clock.
#[verifier::external_type_specification]
#[verifier::external_body]
pub struct ExInstant(tokio::time::Instant);

/// Calls `tokio::time::Instant::now`, which reads tokio's monotonic clock.
/// The reading depends on when the call is made, so nothing is claimed of it.
#[verifier::external_body]
pub(crate) fn instant_now() -> (instant: Instant) {
    Instant::now()
}

/// Calls `tokio::time::Instant::elapsed` and gives the time that has passed
/// since `origin` in nanoseconds. The result depends on when the call is
/// made, so nothing is claimed of it.
#[verifier::external_body]
pub(crate) fn nanos_since(origin: &Instant) -> (nanos: u128) {
    origin.elapsed().as_nanos()
}

} // verus!
