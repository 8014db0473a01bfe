//! Seed sampling for the outer estimation loop, the per-run sample
//! generation, and the iteration accounting that the final report states.

use vstd::prelude::*;
use rand::Rng;
use crate::pcg::pcg_chain;
use crate::pcg::pcg_sequence;

verus! {

/// Inner iterations each estimator run performs.
pub const ITERATIONS_PER_SEED: usize = 10000;

/// Independent seeds the full driver draws.
pub const NUM_SEEDS: usize = 100000;

/// Smallest seed the sampler can return.
pub const SEED_MIN: i32 = 1;

/// One past the largest seed the sampler can return.
pub const SEED_LIMIT: i32 = 2147483647;

#[verifier::external_type_specification]
#[verifier::external_body]
pub struct ExThreadRng(rand::rngs::ThreadRng);

/// Relies on rand's `Rng::gen_range`: a sample drawn from a half-open
/// range lies within that range. It panics only on an empty range, which
/// the precondition rules out; nothing more is assumed of which value
/// comes back.
#[verifier::external_body]
fn gen_range_i32(rng: &mut rand::rngs::ThreadRng, low: i32, high: i32) -> (r: i32)
    requires
        low < high,
    ensures
        low <= r < high,
{
    rng.gen_range(low..high)
}

/// Draw one estimator seed: a value in `[SEED_MIN, SEED_LIMIT)`, so never
/// zero, returned as the unsigned state the generator starts from.
pub fn draw_seed(rng: &mut rand::rngs::ThreadRng) -> (s: u32)
    ensures
        SEED_MIN <= s < SEED_LIMIT,
{
    let raw = gen_range_i32(rng, SEED_MIN, SEED_LIMIT);
    raw as u32
}

/// The pseudo-random values one estimator run consumes: the first
/// `ITERATIONS_PER_SEED` outputs of the generator chain started at `seed`,
/// in the order the run folds them in.
pub fn kernel_samples(seed: u32) -> (r: Vec<u32>)
    ensures
        r.len() == ITERATIONS_PER_SEED,
        forall|i: int| 0 <= i < r.len() ==> r[i] == pcg_chain(seed, (i + 1) as nat),
{
    pcg_sequence(seed, ITERATIONS_PER_SEED)
}

/// Total inner iterations for a run: exactly the number of seeds
/// processed times the per-seed iteration count.
pub fn total_iterations(seeds_processed: u64) -> (total: u64)
    requires
        seeds_processed * ITERATIONS_PER_SEED <= u64::MAX,
    ensures
        total == seeds_processed * ITERATIONS_PER_SEED,
{
    seeds_processed * (ITERATIONS_PER_SEED as u64)
}

} // verus!
