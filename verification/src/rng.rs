//! A deterministic, explicitly seeded random stream.
//!
//! Rendering threads randomness through a value of [`Rng`] rather than an
//! ambient global generator, so a fixed seed reproduces a render exactly and
//! independent pixels can use independent streams. The generator is a
//! SplitMix64 step: a 64-bit counter advanced by an odd constant, whose
//! output is a bijective bit mix of the counter.

use vstd::prelude::*;

verus! {

/// The counter after one generator step.
pub open spec fn rng_next_state(s: u64) -> u64 {
    s.wrapping_add(0x9E3779B97F4A7C15)
}

/// The 64-bit output drawn when stepping the generator from counter `s`.
pub open spec fn rng_output(s: u64) -> u64 {
    let c = rng_next_state(s);
    let z1 = (c ^ (c >> 30)).wrapping_mul(0xBF58476D1CE4E5B9);
    let z2 = (z1 ^ (z1 >> 27)).wrapping_mul(0x94D049BB133111EB);
    z2 ^ (z2 >> 31)
}

/// A 16.16 scalar in `[0, FX_ONE)` from the low bits of a draw.
pub open spec fn fx_unit_of(w: u64) -> i64 {
    (w % 0x1_0000) as i64
}

/// A 16.16 scalar in `[-FX_ONE, FX_ONE)` from the low bits of a draw.
pub open spec fn fx_sym_of(w: u64) -> i64 {
    (((w % 0x2_0000) as int) - 0x1_0000) as i64
}

/// A 16.16 scalar in `[-FX_HALF, FX_HALF)` from the low bits of a draw.
pub open spec fn fx_jitter_of(w: u64) -> i64 {
    (((w % 0x1_0000) as int) - 0x8000) as i64
}

/// A seedable random stream.
#[derive(Clone, Copy, Debug, PartialEq, Eq, Structural)]
pub struct Rng {
    pub state: u64,
}

impl Rng {
    /// A stream starting from the given seed.
    pub fn seeded(seed: u64) -> (r: Rng)
        ensures
            r.state == seed,
    {
        Rng { state: seed }
    }

    /// Draw 64 bits and advance the stream.
    pub fn next_u64(&mut self) -> (r: u64)
        ensures
            final(self).state == rng_next_state(old(self).state),
            r == rng_output(old(self).state),
    {
        self.state = self.state.wrapping_add(0x9E3779B97F4A7C15);
        let c = self.state;
        let z1 = (c ^ (c >> 30)).wrapping_mul(0xBF58476D1CE4E5B9);
        let z2 = (z1 ^ (z1 >> 27)).wrapping_mul(0x94D049BB133111EB);
        z2 ^ (z2 >> 31)
    }

    /// Draw a scalar uniform in `[0, FX_ONE)`.
    pub fn next_fx_unit(&mut self) -> (r: i64)
        ensures
            final(self).state == rng_next_state(old(self).state),
            r == fx_unit_of(rng_output(old(self).state)),
            0 <= r < 0x1_0000,
    {
        let w = self.next_u64();
        (w % 0x1_0000) as i64
    }

    /// Draw a scalar uniform in `[-FX_ONE, FX_ONE)`.
    pub fn next_fx_sym(&mut self) -> (r: i64)
        ensures
            final(self).state == rng_next_state(old(self).state),
            r == fx_sym_of(rng_output(old(self).state)),
            -0x1_0000 <= r < 0x1_0000,
    {
        let w = self.next_u64();
        ((w % 0x2_0000) as i64) - 0x1_0000
    }

    /// Draw a scalar uniform in `[-FX_HALF, FX_HALF)`.
    pub fn next_jitter(&mut self) -> (r: i64)
        ensures
            final(self).state == rng_next_state(old(self).state),
            r == fx_jitter_of(rng_output(old(self).state)),
            -0x8000 <= r < 0x8000,
    {
        let w = self.next_u64();
        ((w % 0x1_0000) as i64) - 0x8000
    }
}

} // verus!
