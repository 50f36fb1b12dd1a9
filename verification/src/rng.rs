//! The pseudo-random generator behind food placement: oorandom's 32-bit PCG,
//! held as an opaque value and reached only through the wrappers below.

use vstd::prelude::*;

verus! {

#[verifier::external_type_specification]
#[verifier::external_body]
pub struct ExRand32(oorandom::Rand32);

/// Relies on oorandom's `Rand32::new`: builds a generator from a seed.
/// Nothing is promised of the state it starts in.
#[verifier::external_body]
pub(crate) fn rng_new(seed: u64) -> (r: oorandom::Rand32) {
    oorandom::Rand32::new(seed)
}

/// Relies on oorandom's `Rand32::rand_range`: a draw from `0..bound` lies in
/// that half-open range. An empty range is excluded (the source reduces a
/// 32-bit draw modulo the range's width). Only the bound is promised: which
/// value comes out depends on the generator's state.
#[verifier::external_body]
pub(crate) fn rng_below(rng: &mut oorandom::Rand32, bound: u32) -> (r: u32)
    requires
        bound > 0,
    ensures
        r < bound,
{
    rng.rand_range(0..bound)
}

} // verus!
