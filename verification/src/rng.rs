//! Trusted boundary to the random number generator.
//!
//! Resolution consumes uniform rolls in `[0, 1000)`. Nothing is assumed of
//! any single draw beyond its range; every property of resolution is proved
//! for every roll value.

use vstd::prelude::*;
use rand::Rng;
use rand::SeedableRng;

verus! {

#[verifier::external_type_specification]
#[verifier::external_body]
pub struct ExSmallRng(rand::rngs::SmallRng);

/// Relies on rand's `SmallRng::seed_from_u64`: builds a generator from a
/// word-sized seed. Nothing is claimed of the stream it produces.
#[verifier::external_body]
pub(crate) fn seed_rng(seed: u64) -> rand::rngs::SmallRng {
    rand::rngs::SmallRng::seed_from_u64(seed)
}

/// Relies on rand's `Rng::gen_range`: a sample from the half-open range
/// handed to it, here `[0, 1000)`.
#[verifier::external_body]
pub(crate) fn roll_per_thousand(rng: &mut rand::rngs::SmallRng) -> (r: u16)
    ensures
        r < 1000,
{
    rng.gen_range(0..1000)
}

} // verus!
