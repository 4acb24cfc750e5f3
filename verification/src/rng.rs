//! Randomness at the engine's boundary: die rolls, uniform picks, and the
//! weighted power-up draft. Each wrapper states only what holds of every
//! outcome.

use vstd::prelude::*;

verus! {

/// Relies on rand::Rng::sample with rand::distributions::Uniform: a sample
/// from `new_inclusive(lo, hi)` lies in `lo..=hi` (and `new_inclusive` only
/// panics when `lo > hi`).
#[verifier::external_body]
pub(crate) fn sample_uniform_inclusive(lo: u8, hi: u8) -> (r: u8)
    requires
        lo <= hi,
    ensures
        lo <= r <= hi,
{
    let mut rng = rand::thread_rng();
    let dist = rand::distributions::Uniform::new_inclusive(lo, hi);
    rand::Rng::sample(&mut rng, dist)
}

/// Relies on rand::Rng::gen_range: a sample from the half-open range `0..n`
/// is below `n` (and `gen_range` only panics when the range is empty).
#[verifier::external_body]
pub(crate) fn sample_below(n: usize) -> (r: usize)
    requires
        n >= 1,
    ensures
        r < n,
{
    let mut rng = rand::thread_rng();
    rand::Rng::gen_range(&mut rng, 0..n)
}

/// Relies on rand::distributions::WeightedIndex: with at least one positive
/// weight and a total that cannot overflow, `new` succeeds and sampling
/// returns an index into the weights.
#[verifier::external_body]
pub(crate) fn sample_weighted(weights: &Vec<u32>) -> (r: usize)
    requires
        0 < weights@.len() <= 1000,
        forall|i: int| 0 <= i < weights@.len() ==> #[trigger] weights@[i] <= 1000,
        exists|i: int| 0 <= i < weights@.len() && #[trigger] weights@[i] > 0,
    ensures
        r < weights@.len(),
{
    let dist = rand::distributions::WeightedIndex::new(weights).unwrap();
    let mut rng = rand::thread_rng();
    rand::distributions::Distribution::sample(&dist, &mut rng)
}

/// A uniformly random die face.
pub fn roll_die() -> (r: u8)
    ensures
        1 <= r <= 6,
{
    sample_uniform_inclusive(1, 6)
}

} // verus!
