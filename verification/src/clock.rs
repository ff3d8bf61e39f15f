//! The monotonic clock behind the elapsed times.
//!
//! A reading depends on when it is taken, so nothing is stated of one.

use std::time::Duration;
use std::time::Instant;
use vstd::prelude::*;

verus! {

#[verifier::external_type_specification]
#[verifier::external_body]
pub struct ExInstant(Instant);

/// `std::time::Instant::now`: the present moment. Nothing is claimed of it.
pub assume_specification[ Instant::now ]() -> (now: Instant);

/// `std::time::Instant::elapsed`: the time since `start`. Nothing is claimed
/// of it.
pub assume_specification[ Instant::elapsed ](start: &Instant) -> (elapsed: Duration);

/// `std::time::Duration::as_millis`: the whole milliseconds in `duration`.
/// Nothing is claimed of their number.
pub assume_specification[ Duration::as_millis ](duration: &Duration) -> (millis: u128);

} // verus!
