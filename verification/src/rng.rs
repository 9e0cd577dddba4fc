use vstd::prelude::*;

verus! {

/// One state-update step of the generator: a wrapping add of the increment
/// constant, then three xorshifts.
pub open spec fn rng_step(s: u64) -> u64 {
    let x0 = s.wrapping_add(0x9E3779B97F4A7C15u64);
    let x1 = x0 ^ (x0 >> 12u64);
    let x2 = x1 ^ (x1 << 25u64);
    x2 ^ (x2 >> 27u64)
}

/// The value drawn from a step: the new state times the output constant,
/// wrapping.
pub open spec fn rng_output(s: u64) -> u64 {
    rng_step(s).wrapping_mul(0x2545F4914F6CDD1Du64)
}

/// A tiny deterministic pseudo-random generator (xorshift64*), reproduced
/// bit for bit so that existing traces replay identically.
#[derive(Clone, Copy, Debug, PartialEq, Eq, Structural)]
pub struct Rng {
    state: u64,
}

impl Rng {
    /// The generator's 64-bit state.
    pub closed spec fn state(self) -> u64 {
        self.state
    }

    /// A generator with the state at zero.
    pub fn new() -> (r: Self)
        ensures
            r.state() == 0,
    {
        Rng { state: 0 }
    }

    /// Draw the next 64-bit value: the state advances by exactly one
    /// `rng_step` and the draw is exactly `rng_output` of the old state.
    pub fn next_u64(&mut self) -> (r: u64)
        ensures
            final(self).state() == rng_step(old(self).state()),
            r == rng_output(old(self).state()),
    {
        let mut x = self.state.wrapping_add(0x9E3779B97F4A7C15u64);
        x = x ^ (x >> 12u64);
        x = x ^ (x << 25u64);
        x = x ^ (x >> 27u64);
        self.state = x;
        x.wrapping_mul(0x2545F4914F6CDD1Du64)
    }
}

impl Default for Rng {
    /// Same as `new`: a generator with the state at zero.
    fn default() -> (r: Self)
        ensures
            r.state() == 0,
    {
        Rng { state: 0 }
    }
}

} // verus!
