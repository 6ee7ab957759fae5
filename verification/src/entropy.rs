//! Randomness sources: a seeded, reproducible draw for the weighted
//! lotteries, and machine entropy for plot and node-name generation.

use vstd::prelude::*;

verus! {

/// The first 64-bit output of the standard seeded generator for a 32-byte
/// seed; the same seed always yields the same value.
pub uninterp spec fn seeded_draw_of(seed: Seq<u8>) -> u64;

/// Relies on rand's `StdRng::from_seed` (a fixed, seed-deterministic
/// generator) and `Rng::next_u64`: the generator's first output word, a
/// function of the seed alone.
#[verifier::external_body]
pub fn seeded_u64(seed: &Vec<u8>) -> (r: u64)
    requires
        seed@.len() == 32,
    ensures
        r == seeded_draw_of(seed@),
{
    let mut arr = [0u8; 32];
    arr.copy_from_slice(seed.as_slice());
    let mut rng = <rand::rngs::StdRng as rand::SeedableRng>::from_seed(arr);
    rand::Rng::next_u64(&mut rng)
}

/// Relies on rand's `random`: a value from machine entropy; nothing is
/// promised of it.
#[verifier::external_body]
pub fn random_u64() -> u64 {
    rand::random::<u64>()
}

/// Relies on rand's `random_range`: a value drawn from `[0, n)`; nothing
/// more is promised of it.
#[verifier::external_body]
pub fn random_below(n: usize) -> (r: usize)
    requires
        n > 0,
    ensures
        r < n,
{
    rand::random_range(0..n)
}

} // verus!
