//! A small permuted-congruential pseudo-random generator, constructed
//! locally from a caller-supplied seed. The state transition and output
//! permutation are specified exactly, so every draw is reproducible from
//! the seed.
use vstd::prelude::*;

verus! {

/// The multiplier of the linear-congruential state step.
pub const PCG_MULTIPLIER: u64 = 6364136223846793005;

/// The state after one step: state times the multiplier plus the stream
/// increment, modulo 2^64.
pub open spec fn pcg_next(state: u64, inc: u64) -> u64 {
    vstd::wrapping::u64_specs::wrapping_add(
        vstd::wrapping::u64_specs::wrapping_mul(state, PCG_MULTIPLIER),
        inc,
    )
}

/// The 32-bit output permutation of one 64-bit state: an xorshift folded
/// to 32 bits, rotated right by the state's top five bits.
pub open spec fn pcg_output(state: u64) -> u32 {
    let xorshifted = ((((state >> 18) ^ state) >> 27) & 0xffff_ffff) as u32;
    let rot = (state >> 59) as u32;
    (xorshifted >> rot) | (xorshifted << (vstd::wrapping::u32_specs::wrapping_add(!rot, 1) & 31))
}

/// The generator: a 64-bit state and an odd stream increment.
#[derive(Clone, Copy, Debug)]
pub struct Rng {
    pub state: u64,
    pub inc: u64,
}

impl Rng {
    /// Build a generator from a seed (an entropy source read by the
    /// caller). The stream increment is derived from the seed and forced
    /// odd.
    pub fn new(seed: u64) -> (r: Rng)
        ensures
            r.state == seed,
            r.inc == (seed >> 31) | 1,
    {
        Rng { state: seed, inc: (seed >> 31) | 1 }
    }

    /// One draw: returns the output permutation of the current state and
    /// advances the state by one step.
    pub fn next_u32(&mut self) -> (r: u32)
        ensures
            r == pcg_output(old(self).state),
            final(self).state == pcg_next(old(self).state, old(self).inc),
            final(self).inc == old(self).inc,
    {
        let oldstate = self.state;
        self.state = oldstate.wrapping_mul(PCG_MULTIPLIER).wrapping_add(self.inc);
        let shifted: u64 = ((oldstate >> 18) ^ oldstate) >> 27;
        assert(shifted & 0xffff_ffff <= 0xffff_ffffu64) by (bit_vector);
        let xorshifted: u32 = (shifted & 0xffff_ffff) as u32;
        assert(oldstate >> 59 < 32) by (bit_vector);
        let rot: u32 = (oldstate >> 59) as u32;
        let amt: u32 = (!rot).wrapping_add(1) & 31;
        assert(amt < 32) by {
            let x: u32 = (!rot).wrapping_add(1);
            assert(x & 31 < 32) by (bit_vector);
        }
        (xorshifted >> rot) | (xorshifted << amt)
    }

    /// A draw reduced below `upper`: the next output modulo `upper`, or
    /// zero (with the state untouched) when `upper` is zero.
    pub fn gen_range(&mut self, upper: u32) -> (r: u32)
        ensures
            upper == 0 ==> r == 0 && *final(self) == *old(self),
            upper > 0 ==> {
                &&& r == pcg_output(old(self).state) % upper
                &&& r < upper
                &&& final(self).state == pcg_next(old(self).state, old(self).inc)
                &&& final(self).inc == old(self).inc
            },
    {
        if upper == 0 {
            return 0;
        }
        let x = self.next_u32();
        x % upper
    }
}

} // verus!
