//! A deterministic Lehmer-style pseudo-random number generator.
//!
//! The generator is a pure function of its seed: the engine never reseeds, so
//! a whole game is reproducible from the seed and the input sequence. Only
//! the contract "a die roll is a face in 1..=6" matters to the turn engine.

use vstd::prelude::*;

verus! {

/// The Lehmer multiplier applied to the 128-bit state at every step.
pub const LEHMER_MUL: u128 = 0xda942042e4dd58b5;

/// The state after one generator step.
pub open spec fn rng_step(v: u128) -> u128 {
    v.wrapping_mul(LEHMER_MUL)
}

/// The 64-bit output drawn from a generator state.
pub open spec fn rng_output(v: u128) -> u64 {
    (v >> 64) as u64
}

/// The die face drawn from a generator state: a value in 1..=6.
pub open spec fn d6_of(v: u128) -> usize {
    (rng_output(v) % 6 + 1) as usize
}

/// The state after `n` generator steps.
pub open spec fn rng_steps(v: u128, n: nat) -> u128
    decreases n,
{
    if n == 0 {
        v
    } else {
        rng_step(rng_steps(v, (n - 1) as nat))
    }
}

/// Pseudo-random number generator with a 128-bit multiplicative state.
pub struct Rng {
    value: u128,
}

impl View for Rng {
    type V = u128;

    closed spec fn view(&self) -> u128 {
        self.value
    }
}

impl Rng {
    /// Creates a generator from a seed, cycling the state a hundred times to
    /// scatter the seed's bits before the first draw.
    pub fn new(seed: u64) -> (r: Rng)
        ensures
            r@ == rng_steps(seed as u128, 100),
    {
        let mut rng = Rng { value: seed as u128 };
        let mut i: usize = 0;
        while i < 100
            invariant
                i <= 100,
                rng@ == rng_steps(seed as u128, i as nat),
            decreases 100 - i,
        {
            let _ = rng.next();
            i += 1;
        }
        rng
    }

    /// Advances the state one step and returns its top 64 bits.
    pub fn next(&mut self) -> (r: u64)
        ensures
            final(self)@ == rng_step(old(self)@),
            r == rng_output(final(self)@),
    {
        self.value = self.value.wrapping_mul(LEHMER_MUL);
        (self.value >> 64) as u64
    }

    /// Rolls one die: advances the state and returns a face in 1..=6.
    pub fn roll_d6(&mut self) -> (r: usize)
        ensures
            final(self)@ == rng_step(old(self)@),
            r == d6_of(final(self)@),
            1 <= r <= 6,
    {
        (self.next() % 6 + 1) as usize
    }

    /// Rolls a die, rerolling while the face is 6, and returns a face in
    /// 1..=5. When the first roll is not a 6 the state advances exactly one
    /// step. The reroll count is bounded as a guard against a pathological
    /// generator state; if the bound is ever exhausted the lowest face is
    /// used.
    pub fn roll_non6(&mut self) -> (r: usize)
        ensures
            1 <= r <= 5,
            d6_of(rng_step(old(self)@)) != 6 ==> final(self)@ == rng_step(old(self)@) && r
                == d6_of(rng_step(old(self)@)),
    {
        let mut f = self.roll_d6();
        let mut tries: usize = 0;
        while f == 6 && tries < 100
            invariant
                1 <= f <= 6,
                d6_of(rng_step(old(self)@)) != 6 ==> self@ == rng_step(old(self)@) && f
                    == d6_of(rng_step(old(self)@)),
            decreases 100 - tries,
        {
            f = self.roll_d6();
            tries += 1;
        }
        if f == 6 {
            1
        } else {
            f
        }
    }
}

} // verus!
