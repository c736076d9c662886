//! Calls into the host: wall-clock time and randomness.
//!
//! Each item here is trusted; everything downstream of these calls is
//! verified for every value they could hand back.

use vstd::prelude::*;
use std::time::Instant;

verus! {

#[verifier::external_type_specification]
#[verifier::external_body]
pub struct ExInstant(Instant);

/// Relies on std::time::Instant::now: an opaque timestamp of the
/// present moment. Nothing is promised of it.
#[verifier::external_body]
pub(crate) fn instant_now() -> (r: Instant) {
    Instant::now()
}

/// Relies on std::time::Instant::duration_since and
/// std::time::Duration::as_millis: the whole milliseconds elapsed from
/// `earlier` to `later`, or zero if `later` is the earlier of the two.
/// Nothing is promised of the value.
#[verifier::external_body]
pub(crate) fn millis_between(earlier: &Instant, later: &Instant) -> (r: u128) {
    later.duration_since(*earlier).as_millis()
}

/// Relies on rand::random: one byte drawn from the thread-local
/// generator. Nothing can be promised of a random value.
#[verifier::external_body]
pub(crate) fn random_byte() -> (r: u8) {
    rand::random::<u8>()
}

} // verus!
