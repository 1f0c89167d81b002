//! The monotonic clock. Verified code never learns what time it is: it
//! stores an instant, asks later how long ago that was, and decides on the
//! number it is given.

use std::time::Instant;
use vstd::prelude::*;

verus! {

#[verifier::external_type_specification]
#[verifier::external_body]
pub struct ExInstant(Instant);

/// `Instant` is `Copy`: its `clone` hands back the same instant.
pub assume_specification[ <Instant as Clone>::clone ](instant: &Instant) -> (copy: Instant)
    ensures
        copy == *instant,
;

/// `Instant::now`. Nothing is claimed of the instant that comes back.
#[verifier::external_body]
pub(crate) fn now() -> Instant {
    Instant::now()
}

/// `Instant::elapsed`, in whole milliseconds. Nothing is claimed of the
/// number: it depends on when the call is made.
#[verifier::external_body]
pub(crate) fn elapsed_millis(since: &Instant) -> u128 {
    since.elapsed().as_millis()
}

/// `Instant::elapsed`, in whole seconds. Nothing is claimed of the number:
/// it depends on when the call is made.
#[verifier::external_body]
pub(crate) fn elapsed_secs(since: &Instant) -> u64 {
    since.elapsed().as_secs()
}

/// Whether a span that began `elapsed` units ago and lasts `duration` units
/// is over.
pub fn span_is_over(elapsed: u128, duration: u64) -> (over: bool)
    ensures
        over == (elapsed >= duration),
{
    elapsed >= duration as u128
}

} // verus!
