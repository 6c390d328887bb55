//! The random draws the animation makes, behind trusted wrappers around the
//! windowing library's thread-local generator.

use vstd::prelude::*;

verus! {

/// Relies on nannou::rand::random_range: for integer types the result is
/// drawn uniformly from [min, max). Equal arguments would panic inside the
/// generator, so they are excluded here.
#[verifier::external_body]
pub(crate) fn random_usize_range(min: usize, max: usize) -> (r: usize)
    requires
        min < max,
    ensures
        min <= r < max,
{
    nannou::rand::random_range(min, max)
}

/// Relies on nannou::rand::random_range: for integer types the result is
/// drawn uniformly from [min, max). Equal arguments would panic inside the
/// generator, so they are excluded here.
#[verifier::external_body]
pub(crate) fn random_i64_range(min: i64, max: i64) -> (r: i64)
    requires
        min < max,
    ensures
        min <= r < max,
{
    nannou::rand::random_range(min, max)
}

} // verus!
