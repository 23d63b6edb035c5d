use tokio::time::Instant;
use vstd::prelude::*;

verus! {

#[verifier::external_type_specification]
#[verifier::external_body]
pub struct ExInstant(Instant);

/// Relies on `tokio::time::Instant::now`: the current time, of which nothing
/// is promised.
#[verifier::external_body]
pub(crate) fn now() -> (r: Instant) {
    Instant::now()
}

/// Relies on `tokio::time::Instant::elapsed`: the whole seconds since
/// `start`, which depend on the clock, so nothing is promised of them.
#[verifier::external_body]
pub(crate) fn secs_since(start: &Instant) -> (r: u64) {
    start.elapsed().as_secs()
}

} // verus!
