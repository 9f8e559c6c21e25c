use vstd::prelude::*;

verus! {

#[verifier::external_type_specification]
#[verifier::external_body]
pub struct ExInstant(std::time::Instant);

/// Relies on `std::time::Instant::now`: an opaque monotonic timestamp, used
/// only to report how long a run took. Nothing can be promised of a clock.
#[verifier::external_body]
pub(crate) fn instant_now() -> std::time::Instant {
    std::time::Instant::now()
}

/// Relies on `std::time::Instant::elapsed`: the wall time since `since`,
/// converted to whole microseconds. Nothing can be promised of a clock.
#[verifier::external_body]
pub(crate) fn micros_since(since: &std::time::Instant) -> u64 {
    since.elapsed().as_micros() as u64
}

} // verus!
