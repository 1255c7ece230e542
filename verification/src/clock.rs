//! The monotonic clock of std, as the library sees it: instants and spans are
//! opaque, and every reading of the clock is an unconstrained number of
//! nanoseconds.
use std::time::{Duration, Instant};
use vstd::prelude::*;

verus! {

#[verifier::external_type_specification]
#[verifier::external_body]
pub struct ExInstant(Instant);

/// Calls `Instant::elapsed`. Nothing is stated of the result: it is a reading
/// of the clock.
#[verifier::external_body]
fn elapsed(t: &Instant) -> Duration {
    t.elapsed()
}

/// The time since `t`, read from the clock, in whole nanoseconds.
pub(crate) fn elapsed_nanos(t: &Instant) -> u128 {
    let d = elapsed(t);
    duration_nanos(&d)
}

/// Calls `Instant::now`. Nothing is stated of the result: it is a reading of
/// the clock.
#[verifier::external_body]
pub(crate) fn now() -> Instant {
    Instant::now()
}

/// Calls `Duration::as_nanos`. Nothing is stated of the result: a `Duration`
/// is opaque here, so there is nothing to tie it to.
#[verifier::external_body]
pub(crate) fn duration_nanos(d: &Duration) -> u128 {
    d.as_nanos()
}

} // verus!
