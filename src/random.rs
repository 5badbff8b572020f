use vstd::prelude::*;

use crate::problem::operands_in_range;
use rand::rngs::StdRng;
use rand::{Rng, SeedableRng};

verus! {

#[verifier::external_type_specification]
#[verifier::external_body]
pub struct ExStdRng(StdRng);

/// Relies on rand's `SeedableRng::seed_from_u64` for `StdRng`: a generator
/// determined by the seed. Nothing is claimed of its output.
#[verifier::external_body]
fn std_rng_seeded(seed: u64) -> StdRng {
    StdRng::seed_from_u64(seed)
}

/// Relies on rand's `Rng::gen_range(low, high)`, which panics when
/// `low >= high` and otherwise returns a value in `[low, high)`.
#[verifier::external_body]
fn gen_below(rng: &mut StdRng, n: u64) -> (r: u64)
    requires
        n > 0,
    ensures
        r < n,
{
    rng.gen_range(0, n)
}

/// The source of every random choice made while building a worksheet.
pub struct RandomSource {
    rng: StdRng,
}

impl RandomSource {
    /// A source whose sequence is fixed by `seed`.
    pub fn from_seed(seed: u64) -> Self {
        RandomSource { rng: std_rng_seeded(seed) }
    }

    /// A source drawing from a generator built elsewhere.
    pub fn from_rng(rng: StdRng) -> Self {
        RandomSource { rng }
    }

    /// One operand in `[0, range_max)`.
    pub fn sample(&mut self, range_max: u64) -> (r: u64)
        requires
            range_max > 0,
        ensures
            r < range_max,
    {
        gen_below(&mut self.rng, range_max)
    }

    /// Two independent operands in `[0, range_max)`.
    pub fn sample_pair(&mut self, range_max: u64) -> (r: (u64, u64))
        requires
            range_max > 0,
        ensures
            r.0 < range_max,
            r.1 < range_max,
    {
        let a = self.sample(range_max);
        let b = self.sample(range_max);
        (a, b)
    }

    /// Three independent operands in `[0, range_max)`.
    pub fn sample_triple(&mut self, range_max: u64) -> (r: (u64, u64, u64))
        requires
            range_max > 0,
        ensures
            r.0 < range_max,
            r.1 < range_max,
            r.2 < range_max,
    {
        let a = self.sample(range_max);
        let b = self.sample(range_max);
        let c = self.sample(range_max);
        (a, b, c)
    }

    /// `count` independent operands in `[0, range_max)`.
    pub fn sample_operands(&mut self, count: usize, range_max: u64) -> (r: Vec<u64>)
        requires
            range_max > 0,
        ensures
            r.len() == count,
            operands_in_range(r@, range_max),
    {
        let mut ops: Vec<u64> = Vec::new();
        let mut i: usize = 0;
        while i < count
            invariant
                range_max > 0,
                i <= count,
                ops.len() == i,
                operands_in_range(ops@, range_max),
            decreases count - i,
        {
            let x = self.sample(range_max);
            ops.push(x);
            i = i + 1;
        }
        ops
    }

    /// An index in `[0, n)`, uniformly chosen.
    pub fn choose_index(&mut self, n: usize) -> (r: usize)
        requires
            n > 0,
        ensures
            r < n,
    {
        let k = gen_below(&mut self.rng, n as u64);
        k as usize
    }
}

} // verus!
