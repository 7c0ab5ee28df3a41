//! A small deterministic pseudo-random generator.
//!
//! The link conditioner draws its drop, duplication and jitter samples
//! from this generator, so a fixed seed reproduces an impairment
//! schedule exactly. The step function is the classic xorshift64.

use vstd::prelude::*;

verus! {

/// The seed used in place of 0 (xorshift64 is stuck at state 0).
pub const FALLBACK_SEED: u64 = 0x9E37_79B9_7F4A_7C15;

/// One step of the xorshift64 generator.
pub open spec fn rng_step(s: u64) -> u64 {
    let a = s ^ (s << 13);
    let b = a ^ (a >> 7);
    b ^ (b << 17)
}

/// Deterministic generator state.
#[derive(Clone, Copy, PartialEq, Eq, Structural, Debug)]
pub struct Rng {
    pub state: u64,
}

impl Rng {
    /// A generator starting from `seed` (a zero seed is replaced,
    /// since xorshift64 never leaves state 0).
    pub fn seeded(seed: u64) -> (r: Rng)
        ensures
            r.state == if seed == 0 { FALLBACK_SEED } else { seed },
    {
        if seed == 0 {
            Rng { state: FALLBACK_SEED }
        } else {
            Rng { state: seed }
        }
    }

    /// The next raw 64-bit draw.
    pub fn next_u64(&mut self) -> (r: u64)
        ensures
            r == rng_step(old(self).state),
            final(self).state == rng_step(old(self).state),
    {
        let s = self.state;
        let a = s ^ (s << 13u64);
        let b = a ^ (a >> 7u64);
        let c = b ^ (b << 17u64);
        self.state = c;
        c
    }

    /// A draw uniform over `0 .. bound`.
    pub fn next_below(&mut self, bound: u64) -> (r: u64)
        requires
            bound > 0,
        ensures
            r == rng_step(old(self).state) % bound,
            r < bound,
            final(self).state == rng_step(old(self).state),
    {
        let v = self.next_u64();
        v % bound
    }
}

} // verus!
