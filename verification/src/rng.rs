//! The source of randomness: thin trusted wrappers around the `rand` crate.
//!
//! Nothing is assumed about which values come back, only that an index drawn
//! for a collection of `n` candidates is in bounds. Everything the generator
//! guarantees holds for every outcome of these draws.

use vstd::prelude::*;

verus! {

#[verifier::external_type_specification]
#[verifier::external_body]
pub struct ExThreadRng(rand::rngs::ThreadRng);

/// Relies on `rand::thread_rng`: it returns a handle to the thread-local
/// random number generator. Nothing is assumed about it.
#[verifier::external_body]
pub(crate) fn new_rng() -> rand::rngs::ThreadRng {
    rand::thread_rng()
}

/// Relies on `rand::Rng::gen_range` on the half-open range `0..n`: it
/// samples a single value from the range, so the result is below `n`.
/// It panics on an empty range, so `n` must be positive.
#[verifier::external_body]
pub(crate) fn gen_index(rng: &mut rand::rngs::ThreadRng, n: usize) -> (r: usize)
    requires
        n >= 1,
    ensures
        r < n,
{
    rand::Rng::gen_range(rng, 0..n)
}

} // verus!
