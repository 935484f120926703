//! The random-number source that generation draws from: a single,
//! sequential, seedable generator, so that runs are reproducible when the
//! seed is supplied externally.

use vstd::prelude::*;

use rand::SeedableRng;

verus! {

#[verifier::external_type_specification]
#[verifier::external_body]
pub struct ExStdRng(rand::rngs::StdRng);

/// Relies on rand's `StdRng::seed_from_u64`: a deterministic pseudo-random
/// generator derived from the given seed.
#[verifier::external_body]
pub fn seeded_rng(seed: u64) -> rand::rngs::StdRng {
    rand::rngs::StdRng::seed_from_u64(seed)
}

} // verus!
