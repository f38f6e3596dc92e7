//! The deterministic random source behind the background starfield
//! (xorshift64*), so the sky looks the same every run.

use vstd::prelude::*;

verus! {

/// The generator's fixed seed.
pub const STAR_SEED: u64 = 0x9E37_79B9_7F4A_7C15;

/// Multiplier of the xorshift64* output function.
pub const STAR_MULTIPLIER: u64 = 0x2545_F491_4F6C_DD1D;

/// One xorshift64 state transition.
pub open spec fn xorshift(s: u64) -> u64 {
    let a = s ^ (s >> 12u64);
    let b = a ^ (a << 25u64);
    b ^ (b >> 27u64)
}

/// The 53 random bits drawn from a (new) state.
pub open spec fn draw_bits(s: u64) -> u64 {
    s.wrapping_mul(STAR_MULTIPLIER) >> 11u64
}

/// The starfield's random source.
pub struct StarRng {
    state: u64,
}

impl StarRng {
    pub closed spec fn state(&self) -> u64 {
        self.state
    }

    /// A generator at the fixed seed.
    pub fn new() -> (r: StarRng)
        ensures
            r.state() == STAR_SEED,
    {
        StarRng { state: STAR_SEED }
    }

    /// Advances the state and returns 53 random bits; divided by 2^53 they
    /// give a uniform draw in [0, 1).
    pub fn next_bits(&mut self) -> (b: u64)
        ensures
            final(self).state() == xorshift(old(self).state()),
            b == draw_bits(xorshift(old(self).state())),
            b < 0x20_0000_0000_0000,
    {
        let mut s = self.state;
        s = s ^ (s >> 12u64);
        s = s ^ (s << 25u64);
        s = s ^ (s >> 27u64);
        self.state = s;
        let m = s.wrapping_mul(STAR_MULTIPLIER);
        let b = m >> 11u64;
        assert(b == m >> 11u64);
        assert(m >> 11u64 < 0x20_0000_0000_0000) by (bit_vector);
        b
    }
}

} // verus!
