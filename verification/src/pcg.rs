//! The PCG-style integer hash used as a counter-based pseudo-random
//! generator, and the chain it forms when each output is fed back in.

use vstd::prelude::*;

verus! {

/// One step of the generator: what `pcg_rng` returns, stated over the
/// wrapping arithmetic and bit operations that define it.
pub open spec fn pcg_step(input: u32) -> u32 {
    let state = input.wrapping_mul(747796405).wrapping_add(2891336453);
    let shift = ((state >> 28) + 4) as u32;
    let word = ((state >> shift) ^ state).wrapping_mul(277803737);
    (word >> 22) ^ word
}

/// Advance the generator once. All arithmetic wraps modulo 2^32 by design;
/// the result is a pure function of the input, so a fixed seed always
/// yields the same chain.
pub fn pcg_rng(input: u32) -> (r: u32)
    ensures
        r == pcg_step(input),
{
    let state = input.wrapping_mul(747796405).wrapping_add(2891336453);
    assert((state >> 28) < 16) by (bit_vector);
    let shift: u32 = (state >> 28) + 4;
    let word = ((state >> shift) ^ state).wrapping_mul(277803737);
    (word >> 22) ^ word
}

/// Applying the step to identical inputs yields bit-identical outputs:
/// the step reads nothing beyond its argument.
pub proof fn lemma_step_deterministic(input_a: u32, input_b: u32)
    requires
        input_a == input_b,
    ensures
        pcg_step(input_a) == pcg_step(input_b),
{
}

/// The generator state after `n` steps from `seed`: the seed itself at
/// zero steps, then each step fed the previous output.
pub open spec fn pcg_chain(seed: u32, n: nat) -> u32
    decreases n,
{
    if n == 0 {
        seed
    } else {
        pcg_step(pcg_chain(seed, (n - 1) as nat))
    }
}

/// For a fixed seed, repeatedly applying the step yields a fixed,
/// reproducible sequence: the state after any number of steps is a
/// function of the seed and the step count alone, with no hidden state.
pub proof fn lemma_chain_deterministic(seed_a: u32, seed_b: u32, n: nat)
    requires
        seed_a == seed_b,
    ensures
        pcg_chain(seed_a, n) == pcg_chain(seed_b, n),
{
}

/// The first `count` outputs of the generator chain started at `seed`.
pub fn pcg_sequence(seed: u32, count: usize) -> (r: Vec<u32>)
    ensures
        r.len() == count,
        forall|i: int| 0 <= i < count ==> r[i] == pcg_chain(seed, (i + 1) as nat),
{
    let mut out: Vec<u32> = Vec::new();
    let mut state: u32 = seed;
    let mut k: usize = 0;
    while k < count
        invariant
            k <= count,
            out.len() == k,
            state == pcg_chain(seed, k as nat),
            forall|i: int| 0 <= i < k ==> out[i] == pcg_chain(seed, (i + 1) as nat),
        decreases count - k,
    {
        state = pcg_rng(state);
        out.push(state);
        k = k + 1;
    }
    out
}

} // verus!
