//! A deterministic pseudo-random source, threaded explicitly through every
//! sampling function so that a render is reproducible from its seed.
//!
//! The generator is xorshift64; its whole step is integer code and is
//! verified exactly. Draws of doubles are uniform in `[0, 1)`: the top 52
//! bits of a step scale by `2^-52`.

use vstd::prelude::*;

use crate::fp::{fp_from_u52, fp_mul, fp_add, fp_sub, mul_bits, add_bits, sub_bits, u52_bits,
    F_2_NEG52};

verus! {

/// The state a fresh generator falls back to when seeded with zero, which
/// xorshift64 would never leave.
pub const RNG_DEFAULT_STATE: u64 = 0x9E3779B97F4A7C15;

/// One xorshift64 step: three shift-xor rounds, a bijection on nonzero
/// states.
pub open spec fn next64(s: u64) -> u64 {
    let a = s ^ (s >> 12);
    let b = a ^ (a << 25);
    b ^ (b >> 27)
}

/// The bits of the double drawn from state `s`: the top 52 bits of the
/// stepped state, scaled into `[0, 1)`.
pub open spec fn double_from_state(s: u64) -> u64 {
    mul_bits(u52_bits(next64(s) >> 12), F_2_NEG52)
}

/// The bits of a double drawn from state `s` in `[min, max)`:
/// `min + (max - min) * u` for a unit draw `u`.
pub open spec fn double_range_from_state(s: u64, min: u64, max: u64) -> u64 {
    add_bits(min, mul_bits(sub_bits(max, min), double_from_state(s)))
}

/// An explicit pseudo-random generator; one lives in each render worker.
pub struct Rng {
    pub state: u64,
}

impl Rng {
    /// True of every reachable generator: xorshift64 fixes zero, so zero is
    /// never entered.
    pub open spec fn well_formed(&self) -> bool {
        self.state != 0
    }

    /// Seed a generator; a zero seed falls back to a fixed nonzero state.
    pub fn new(seed: u64) -> (r: Rng)
        ensures
            r.state == if seed == 0 { RNG_DEFAULT_STATE } else { seed },
            r.well_formed(),
    {
        if seed == 0 {
            Rng { state: RNG_DEFAULT_STATE }
        } else {
            Rng { state: seed }
        }
    }

    /// Step the generator and hand out the new state as the draw.
    pub fn next_u64(&mut self) -> (r: u64)
        requires
            old(self).well_formed(),
        ensures
            r == next64(old(self).state),
            final(self).state == next64(old(self).state),
            final(self).well_formed(),
    {
        let s = self.state;
        let a = s ^ (s >> 12);
        let b = a ^ (a << 25);
        let c = b ^ (b >> 27);
        assert(c == next64(s));
        assert(s != 0 ==> c != 0) by (bit_vector)
            requires
                c == (s ^ (s >> 12) ^ ((s ^ (s >> 12)) << 25)) ^ ((s ^ (s >> 12) ^ ((s ^ (s
                    >> 12)) << 25)) >> 27),
        ;
        self.state = c;
        c
    }

    /// Draw the bits of a double uniform in `[0, 1)`.
    pub fn next_double(&mut self) -> (r: u64)
        requires
            old(self).well_formed(),
        ensures
            r == double_from_state(old(self).state),
            final(self).state == next64(old(self).state),
            final(self).well_formed(),
    {
        let raw = self.next_u64();
        let k = raw >> 12;
        assert(k < 0x0010000000000000) by (bit_vector)
            requires
                k == raw >> 12,
        ;
        fp_mul(fp_from_u52(k), F_2_NEG52)
    }

    /// Draw the bits of a double uniform in `[min, max)`.
    pub fn next_double_range(&mut self, min: u64, max: u64) -> (r: u64)
        requires
            old(self).well_formed(),
        ensures
            r == double_range_from_state(old(self).state, min, max),
            final(self).state == next64(old(self).state),
            final(self).well_formed(),
    {
        let width = fp_sub(max, min);
        let u = self.next_double();
        fp_add(min, fp_mul(width, u))
    }
}

} // verus!
