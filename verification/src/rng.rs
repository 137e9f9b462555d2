//! Trusted boundary to the process-wide random number generator.
//!
//! Randomness cannot be pinned down by a contract, so each wrapper states
//! only what holds of every outcome: a bound for ranged draws, nothing for
//! a coin flip.

use vstd::prelude::*;

verus! {

#[verifier::external_type_specification]
#[verifier::external_body]
pub struct ExThreadRng(rand::rngs::ThreadRng);

/// Relies on `rand::thread_rng`: a handle to the lazily-initialized
/// thread-local generator, seeded by the system.
#[verifier::external_body]
pub(crate) fn fresh_rng() -> rand::rngs::ThreadRng {
    rand::thread_rng()
}

/// Relies on `rand::Rng::gen_range` on the range `0..n`: a value drawn from
/// `[0, n)`. The call panics on an empty range, so `n` must be positive.
#[verifier::external_body]
pub(crate) fn rand_below(rng: &mut rand::rngs::ThreadRng, n: usize) -> (r: usize)
    requires
        1 <= n,
    ensures
        r < n,
{
    rand::Rng::gen_range(rng, 0..n)
}

/// Relies on `rand::Rng::gen::<bool>`: a uniformly random boolean, each
/// outcome with probability one half.
#[verifier::external_body]
pub(crate) fn rand_bool(rng: &mut rand::rngs::ThreadRng) -> bool {
    rand::Rng::gen::<bool>(rng)
}

} // verus!
