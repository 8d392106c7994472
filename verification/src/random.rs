//! A seedable pseudo-random source and range sampling over it.

use vstd::prelude::*;
use crate::fixed::Fixed;

verus! {

/// The step by which the generator's state advances on each draw.
pub const GAMMA: u64 = 0x9E37_79B9_7F4A_7C15;

/// The state reached from `state` after `n` draws.
#[verifier::opaque]
pub open spec fn advanced(state: u64, n: nat) -> u64 {
    ((state + n * GAMMA) % 0x1_0000_0000_0000_0000) as u64
}

/// The output function: scrambles a state into the word handed out.
pub open spec fn mix(z: u64) -> u64 {
    let a = (z ^ (z >> 30)).wrapping_mul(0xBF58_476D_1CE4_E5B9);
    let b = (a ^ (a >> 27)).wrapping_mul(0x94D0_49BB_1331_11EB);
    b ^ (b >> 31)
}

/// The `k`-th word (counting from zero) that a generator in `state` hands out.
pub open spec fn draw(state: u64, k: nat) -> u64 {
    mix(advanced(state, k + 1))
}

/// The point between the bounds `a` and `b` (in either order, both
/// included) that `word` selects: the span is cut into equal shares of the
/// 64-bit words.
pub open spec fn sample_between(a: int, b: int, word: u64) -> int {
    let lo = if a <= b { a } else { b };
    let hi = if a <= b { b } else { a };
    lo + share(hi - lo + 1, word)
}

/// The share of `span` that `word` marks: `word` is read as a fraction of
/// the 64-bit range, and the product is rounded down.
#[verifier::opaque]
pub open spec fn share(span: int, word: u64) -> int {
    (span * word) / 0x1_0000_0000_0000_0000
}

/// Advancing by no draw leaves the state as it is.
pub proof fn lemma_advanced_zero(state: u64)
    ensures
        advanced(state, 0) == state,
{
    reveal(advanced);
}

/// Advancing by `a` draws and then by `b` is advancing by `a + b`.
pub proof fn lemma_advanced_add(state: u64, a: nat, b: nat)
    ensures
        advanced(advanced(state, a), b) == advanced(state, a + b),
        draw(advanced(state, a), b) == draw(state, a + b),
{
    reveal(advanced);
    let m = 0x1_0000_0000_0000_0000int;
    let x = state + a * GAMMA;
    let y = b * GAMMA;
    let z = (b + 1) * GAMMA;
    assert((a + b) * GAMMA == x - state + y && (a + (b + 1)) * GAMMA == x - state + z)
        by (nonlinear_arith)
        requires
            x == state + a * GAMMA,
            y == b * GAMMA,
            z == (b + 1) * GAMMA,
    ;
    vstd::arithmetic::div_mod::lemma_add_mod_noop(x, y, m);
    vstd::arithmetic::div_mod::lemma_add_mod_noop(x % m, y, m);
    vstd::arithmetic::div_mod::lemma_add_mod_noop(x, z, m);
    vstd::arithmetic::div_mod::lemma_add_mod_noop(x % m, z, m);
    vstd::arithmetic::div_mod::lemma_mod_twice(x, m);
}

/// A sampled point lies between the bounds, and is the bound itself when
/// the two bounds are equal.
pub proof fn lemma_sample_between(a: int, b: int, word: u64)
    ensures
        a <= b ==> a <= sample_between(a, b, word) <= b,
        b <= a ==> b <= sample_between(a, b, word) <= a,
        a == b ==> sample_between(a, b, word) == a,
{
    let lo = if a <= b { a } else { b };
    let hi = if a <= b { b } else { a };
    let span = hi - lo + 1;
    let m = 0x1_0000_0000_0000_0000int;
    reveal(share);
    assert(0 <= (span * word) / m < span) by (nonlinear_arith)
        requires
            span >= 1,
            0 <= word < m,
            m > 0,
    ;
}

/// A SplitMix64 generator: deterministic for a given seed.
#[derive(Clone, Copy, Debug)]
pub struct Rng {
    state: u64,
}

impl View for Rng {
    type V = u64;

    /// The generator's state.
    closed spec fn view(&self) -> u64 {
        self.state
    }
}

impl Rng {
    /// A generator that starts in state `seed`.
    pub fn new(seed: u64) -> (r: Rng)
        ensures
            r@ == seed,
    {
        Rng { state: seed }
    }

    /// The current state, from which a later run can be repeated.
    pub fn state(&self) -> (s: u64)
        ensures
            s == self@,
    {
        self.state
    }

    /// Hands out the next word and advances the state by one draw.
    pub fn next_u64(&mut self) -> (word: u64)
        ensures
            final(self)@ == advanced(old(self)@, 1),
            word == draw(old(self)@, 0),
    {
        proof {
            reveal(advanced);
        }
        self.state = self.state.wrapping_add(GAMMA);
        let z: u64 = self.state;
        let a: u64 = (z ^ (z >> 30)).wrapping_mul(0xBF58_476D_1CE4_E5B9);
        let b: u64 = (a ^ (a >> 27)).wrapping_mul(0x94D0_49BB_1331_11EB);
        b ^ (b >> 31)
    }
}

impl Fixed {
    /// The number between `min` and `max` that `word` selects.
    pub open spec fn spec_sample(min: Fixed, max: Fixed, word: u64) -> Fixed {
        Fixed { raw: sample_between(min@, max@, word) as i64 }
    }

    /// Draws one word from `rng` and samples with it a number between
    /// `min` and `max`, both included, whichever of them is the smaller.
    pub fn random_range(min: Fixed, max: Fixed, rng: &mut Rng) -> (r: Fixed)
        ensures
            final(rng)@ == advanced(old(rng)@, 1),
            r == Fixed::spec_sample(min, max, draw(old(rng)@, 0)),
            r@ == sample_between(min@, max@, draw(old(rng)@, 0)),
            min@ <= max@ ==> min@ <= r@ <= max@,
            max@ <= min@ ==> max@ <= r@ <= min@,
    {
        let word: u64 = rng.next_u64();
        let lo: i64 = if min.raw <= max.raw { min.raw } else { max.raw };
        let hi: i64 = if min.raw <= max.raw { max.raw } else { min.raw };
        let span: u128 = (hi as i128 - lo as i128 + 1) as u128;
        proof {
            reveal(share);
            lemma_sample_between(min@, max@, word);
            assert(span * word <= 0xFFFF_FFFF_FFFF_FFFF_0000_0000_0000_0000) by (nonlinear_arith)
                requires
                    0 <= span <= 0x1_0000_0000_0000_0000,
                    0 <= word <= 0xFFFF_FFFF_FFFF_FFFF,
            ;
        }
        let offset: u128 = (span * (word as u128)) / 0x1_0000_0000_0000_0000u128;
        Fixed { raw: (lo as i128 + offset as i128) as i64 }
    }
}

} // verus!
