//! A small linear congruential generator: reproducible across targets, no wasm caveats,
//! and short enough to read. Both apps draw their initial conditions and landscapes from
//! it, so a seed fixes a scene on every machine.
use vstd::prelude::*;

verus! {

/// The multiplier of the generator.
pub const MULTIPLIER: u64 = 6364136223846793005;

/// The increment of the generator.
pub const INCREMENT: u64 = 1442695040888963407;

/// One step of the generator: `s · MULTIPLIER + INCREMENT`, modulo 2⁶⁴.
pub open spec fn advance(s: u64) -> u64 {
    vstd::wrapping::u64_specs::wrapping_add(
        vstd::wrapping::u64_specs::wrapping_mul(s, MULTIPLIER),
        INCREMENT,
    )
}

/// The state a seed starts the generator in: one step from the seed, forced odd.
pub open spec fn seeded(seed: u64) -> u64 {
    advance(seed) | 1
}

/// A linear congruential generator.
#[derive(Clone, Copy, Debug)]
pub struct Lcg(u64);

impl Lcg {
    /// The generator's state.
    pub closed spec fn state(&self) -> u64 {
        self.0
    }

    pub fn new(seed: u64) -> (r: Self)
        ensures
            r.state() == seeded(seed),
    {
        Lcg(seed.wrapping_mul(MULTIPLIER).wrapping_add(INCREMENT) | 1)
    }

    /// Advance, and return the top 24 bits of the new state: a uniform draw from
    /// `0 .. 2²⁴`, which the caller scales into whatever range it needs.
    pub fn next_bits(&mut self) -> (r: u32)
        ensures
            final(self).state() == advance(old(self).state()),
            r == final(self).state() >> 40,
            r < 0x100_0000,
    {
        self.0 = self.0.wrapping_mul(MULTIPLIER).wrapping_add(INCREMENT);
        let s = self.0;
        assert(s >> 40 < 0x100_0000) by (bit_vector);
        (s >> 40) as u32
    }
}

/// Every seed starts the generator on an odd state.
pub proof fn lemma_seeded_is_odd(seed: u64)
    ensures
        seeded(seed) % 2 == 1,
{
    let s = advance(seed);
    assert((s | 1) % 2 == 1) by (bit_vector);
}

} // verus!
