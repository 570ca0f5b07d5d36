//! The deterministic pseudo-random source that decides wave sizes, spawn
//! places and drone variants: a 32-bit linear congruential generator.

use vstd::prelude::*;

verus! {

/// Size of the generator's state space, 2^32.
pub open spec fn modulus() -> int {
    0x1_0000_0000
}

/// One step of the generator: `state * 1664525 + 1013904223`, modulo 2^32.
pub open spec fn lcg_next(state: u32) -> u32 {
    ((state as int * 1664525 + 1013904223) % modulus()) as u32
}

/// The value that `range_usize(min, max_inclusive)` draws from the state
/// that the generator moves to.
pub open spec fn in_range(draw: u32, min: usize, max_inclusive: usize) -> int {
    min + (draw as int % (max_inclusive - min + 1))
}

/// The seed of a new game's generator.
pub open spec fn default_seed() -> u32 {
    0xC0DE_DA7A
}

/// A pseudo-random source whose whole state is one 32-bit number.
pub struct EnemyRandom {
    state: u32,
}

proof fn lemma_lcg_step(state: u32)
    ensures
        (state.wrapping_mul(1_664_525u32)).wrapping_add(1_013_904_223u32) == lcg_next(state),
{
    let m = modulus();
    let prod = state as int * 1664525;
    let x = prod % m;
    let c = 1013904223int;
    vstd::arithmetic::div_mod::lemma_mod_bound(prod, m);
    vstd::arithmetic::div_mod::lemma_add_mod_noop_right(c, prod, m);
    assert((c + x) % m == (prod + c) % m);
    if x + c >= m {
        vstd::arithmetic::div_mod::lemma_small_mod((x + c - m) as nat, m as nat);
        vstd::arithmetic::div_mod::lemma_mod_sub_multiples_vanish(x + c, m);
        assert((x + c) % m == x + c - m);
    } else {
        vstd::arithmetic::div_mod::lemma_small_mod((x + c) as nat, m as nat);
    }
}

impl Default for EnemyRandom {
    /// A generator at the fixed seed, so that every game draws the same
    /// sequence.
    fn default() -> (r: Self)
        ensures
            r.state_spec() == default_seed(),
    {
        EnemyRandom { state: 0xC0DE_DA7A }
    }
}

impl EnemyRandom {
    /// The generator's current state.
    pub closed spec fn state_spec(self) -> u32 {
        self.state
    }

    /// Advances the generator and returns its new state.
    pub fn next_u32(&mut self) -> (value: u32)
        ensures
            final(self).state_spec() == lcg_next(old(self).state_spec()),
            value == final(self).state_spec(),
    {
        proof {
            lemma_lcg_step(self.state);
        }
        self.state = self.state.wrapping_mul(1_664_525).wrapping_add(1_013_904_223);
        self.state
    }

    /// Draws a number between `min` and `max_inclusive`, both included.
    pub fn range_usize(&mut self, min: usize, max_inclusive: usize) -> (value: usize)
        requires
            min <= max_inclusive,
            max_inclusive - min < usize::MAX,
        ensures
            final(self).state_spec() == lcg_next(old(self).state_spec()),
            value == in_range(final(self).state_spec(), min, max_inclusive),
            min <= value <= max_inclusive,
    {
        let draw = self.next_u32();
        let width = max_inclusive - min + 1;
        let offset = (draw as usize) % width;
        min + offset
    }
}

/// Every draw of `range_usize` lies between its bounds, whatever the state.
pub proof fn lemma_in_range_bounds(draw: u32, min: usize, max_inclusive: usize)
    requires
        min <= max_inclusive,
    ensures
        min <= in_range(draw, min, max_inclusive) <= max_inclusive,
{
    vstd::arithmetic::div_mod::lemma_mod_bound(draw as int, max_inclusive - min + 1);
}

} // verus!
