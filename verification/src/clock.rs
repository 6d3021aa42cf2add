//! The monotonic clock, carried through the library as an opaque instant.

use vstd::prelude::*;

verus! {

/// `std::time::Instant`: a point on the monotonic clock. The library stores and
/// compares such points for equality in contracts; it never looks inside one.
#[verifier::external_type_specification]
#[verifier::external_body]
pub struct ExInstant(std::time::Instant);

/// Calls `std::time::Instant::now`. Nothing is claimed of the instant that
/// comes back: it depends on when the call is made.
#[verifier::external_body]
pub(crate) fn current_instant() -> (now: std::time::Instant) {
    std::time::Instant::now()
}

} // verus!
