//! Source of the bounded random deltas that drive the metric sampler.

use vstd::prelude::*;
use rand::Rng;

verus! {

/// Relies on `rand::rngs::ThreadRng`'s `Rng::gen_range` over `lo..hi`,
/// which returns a uniformly distributed value of the half-open range and
/// panics when the range is empty.  Nothing more is assumed of the draw.
#[verifier::external_body]
pub(crate) fn random_in_range_i32(lo: i32, hi: i32) -> (r: i32)
    requires
        lo < hi,
    ensures
        lo <= r < hi,
{
    rand::thread_rng().gen_range(lo..hi)
}

/// Relies on `rand::rngs::ThreadRng`'s `Rng::gen_range` over `lo..hi`, as
/// [`random_in_range_i32`] does, at the `u64` instantiation.
#[verifier::external_body]
pub(crate) fn random_in_range_u64(lo: u64, hi: u64) -> (r: u64)
    requires
        lo < hi,
    ensures
        lo <= r < hi,
{
    rand::thread_rng().gen_range(lo..hi)
}

} // verus!
