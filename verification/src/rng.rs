//! The fixed-seed pseudo-random generator used to lay out demo quads.

use vstd::prelude::*;

verus! {

/// One xorshift64 step of the state.
pub open spec fn xorshift_step(x: u64) -> u64 {
    let a = x ^ (x >> 12u64);
    let b = a ^ (a << 25u64);
    b ^ (b >> 27u64)
}

/// The output of the xorshift64* generator for a state.
pub open spec fn scramble(state: u64) -> u64 {
    state.wrapping_mul(0x2545_F491_4F6C_DD1Du64)
}

/// A xorshift64* generator: the same seed always gives the same sequence,
/// so that benchmark runs can be compared.
#[derive(Debug, Clone, Copy, PartialEq, Eq, Structural)]
pub struct Rng {
    pub state: u64,
}

impl Rng {
    /// A generator that starts from `seed`.
    pub fn new(seed: u64) -> (r: Self)
        ensures
            r.state == seed,
    {
        Rng { state: seed }
    }

    /// The next number: the state takes one xorshift step and the output is
    /// the new state times the xorshift64* constant, modulo 2^64.
    pub fn next_u64(&mut self) -> (r: u64)
        ensures
            final(self).state == xorshift_step(old(self).state),
            r == scramble(final(self).state),
    {
        let mut x = self.state;
        x ^= x >> 12u64;
        x ^= x << 25u64;
        x ^= x >> 27u64;
        self.state = x;
        x.wrapping_mul(0x2545_F491_4F6C_DD1Du64)
    }
}

/// A generator seeded with anything but zero never falls into the zero
/// state (which would then repeat forever): each xorshift step of a
/// non-zero state is non-zero.
pub proof fn law_nonzero_state_stays_nonzero(x: u64)
    requires
        x != 0,
    ensures
        xorshift_step(x) != 0,
{
    let a = x ^ (x >> 12u64);
    let b = a ^ (a << 25u64);
    assert(a != 0) by (bit_vector)
        requires
            x != 0,
            a == x ^ (x >> 12u64),
    ;
    assert(b != 0) by (bit_vector)
        requires
            a != 0,
            b == a ^ (a << 25u64),
    ;
    assert(b ^ (b >> 27u64) != 0) by (bit_vector)
        requires
            b != 0,
    ;
}

} // verus!
