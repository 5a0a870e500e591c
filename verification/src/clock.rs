use vstd::prelude::*;
use std::time::{Duration, Instant};

verus! {

/// Declares `std::time::Instant` so that verified code can carry instants.
#[verifier::external_type_specification]
#[verifier::external_body]
pub struct ExInstant(Instant);

/// Calls `Instant::now`. The reading depends on the machine's clock, so
/// nothing is promised about it.
#[verifier::external_body]
pub(crate) fn instant_now() -> (t: Instant) {
    Instant::now()
}

/// Calls `Instant::elapsed`: the time passed since `t`. It depends on the
/// clock, so nothing is promised about it.
#[verifier::external_body]
pub(crate) fn instant_elapsed(t: &Instant) -> (d: Duration) {
    t.elapsed()
}

/// Calls `Duration::as_secs`: the number of whole seconds in `d`.
/// `Duration` is opaque to Verus, so nothing is stated of the number.
#[verifier::external_body]
pub(crate) fn duration_whole_secs(d: &Duration) -> (secs: u64) {
    d.as_secs()
}

} // verus!
