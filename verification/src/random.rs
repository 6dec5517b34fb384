//! Random utilities.
//!
//! The generator is `rand`'s standard one. What it hands out is turned into
//! fixed-point scalars here.

use crate::fixed::{Fixed, SCALE};
use rand::rngs::StdRng;
use vstd::prelude::*;

verus! {

/// `rand::rngs::StdRng`, carried as an opaque value.
#[verifier::external_type_specification]
#[verifier::external_body]
pub struct ExStdRng(StdRng);

/// Calls `rand::SeedableRng::from_seed` for `StdRng`, which builds a generator from 32
/// bytes and accepts every seed. Nothing is claimed of the generator.
#[verifier::external_body]
fn generator_from_seed(seed: [u8; 32]) -> (rng: StdRng) {
    rand::SeedableRng::from_seed(seed)
}

/// Calls `rand::RngCore::next_u32` on a `StdRng`, which advances the generator and hands
/// out 32 bits. Nothing is claimed of the bits or of the generator afterwards.
#[verifier::external_body]
fn next_bits(rng: &mut StdRng) -> (bits: u32) {
    rand::RngCore::next_u32(rng)
}

/// The scalar in `[0, 1)` that 32 random bits stand for: the upper 24 bits as a fraction
/// of 2^24, rounded down to a raw value.
pub open spec fn unit_fraction(bits: u32) -> int {
    ((bits as int / 256) * SCALE) / 16_777_216
}

/// Turns 32 random bits into a scalar in `[0, 1)`.
pub fn unit_from_bits(bits: u32) -> (r: Fixed)
    ensures
        r@ == unit_fraction(bits),
        0 <= r@ < SCALE,
{
    let fraction: u64 = (bits / 256) as u64;
    let scaled: u64 = fraction * 1_000_000;
    let raw: u64 = scaled / 16_777_216;
    Fixed { raw: raw as i64 }
}

/// The random resource.
pub struct Random {
    rng: StdRng,
}

impl Random {
    /// A generator started from the given seed.
    pub fn from_seed(seed: [u8; 32]) -> (r: Random) {
        Random { rng: generator_from_seed(seed) }
    }

    /// Gets a random number in `[0, 1)`.
    pub fn next_real(&mut self) -> (r: Fixed)
        ensures
            0 <= r@ < SCALE,
    {
        let bits: u32 = next_bits(&mut self.rng);
        unit_from_bits(bits)
    }
}

/// The random plugin.
///
/// Simply instantiates the [`Random`] resource.
#[derive(Clone, Copy, Debug)]
pub struct RandomPlugin;

impl RandomPlugin {
    /// The resource this plugin provides, started from the given seed.
    pub fn build(&self, seed: [u8; 32]) -> (r: Random) {
        Random::from_seed(seed)
    }
}

} // verus!
