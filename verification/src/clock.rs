//! The monotonic clock by which the phases are timed.

use std::time::{Duration, Instant};
use vstd::prelude::*;

verus! {

/// `std::time::Instant`, a reading of the monotonic clock.
#[verifier::external_type_specification]
#[verifier::external_body]
pub struct ExInstant(Instant);

/// `Instant::now` reads the clock. Nothing is assumed of the reading.
pub assume_specification[ Instant::now ]() -> (reading: Instant)
;

/// `Instant::elapsed` is the time since a reading. Nothing is assumed of it.
pub assume_specification[ Instant::elapsed ](start: &Instant) -> (span: Duration)
;

/// `Duration::as_millis` is a span in whole milliseconds. Nothing is assumed
/// of the number.
pub assume_specification[ Duration::as_millis ](span: &Duration) -> (millis: u128)
;

/// One more than the largest count of milliseconds that a timing holds.
pub open spec fn millis_modulus() -> nat {
    0x1_0000_0000_0000_0000
}

/// A count of milliseconds as a timing holds it: the low 64 bits.
pub fn low_millis(millis: u128) -> (low: u64)
    ensures
        low == millis as nat % millis_modulus(),
{
    (millis % 0x1_0000_0000_0000_0000u128) as u64
}

/// The whole milliseconds that have passed since `start`.
pub fn millis_since(start: &Instant) -> (millis: u64) {
    let span = start.elapsed();
    low_millis(span.as_millis())
}

} // verus!
