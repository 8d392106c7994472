//! Value types: a 2D vector and an RGBA color.

use vstd::prelude::*;
use core::ops::Neg;
use crate::fixed::Fixed;
use crate::random::{advanced, draw, Rng};

verus! {

/// An ordered pair of components.
#[derive(Clone, Copy, Debug, PartialEq, Eq, Structural)]
pub struct Vec2 {
    pub x: Fixed,
    pub y: Fixed,
}

impl Vec2 {
    /// The component-wise sum.
    pub open spec fn spec_add(self, rhs: Vec2) -> Vec2 {
        Vec2 { x: self.x.spec_add(rhs.x), y: self.y.spec_add(rhs.y) }
    }

    /// The component-wise negation.
    pub open spec fn spec_neg(self) -> Vec2 {
        Vec2 { x: self.x.spec_neg(), y: self.y.spec_neg() }
    }

    /// The component-wise interpolation.
    pub open spec fn spec_lerp(start: Vec2, end: Vec2, t: Fixed) -> Vec2 {
        Vec2 { x: Fixed::spec_lerp(start.x, end.x, t), y: Fixed::spec_lerp(start.y, end.y, t) }
    }

    /// The vector sampled by the first two words of a generator in `state`:
    /// one word for `x`, the next for `y`.
    pub open spec fn spec_random_range(min: Vec2, max: Vec2, state: u64) -> Vec2 {
        Vec2 {
            x: Fixed::spec_sample(min.x, max.x, draw(state, 0)),
            y: Fixed::spec_sample(min.y, max.y, draw(state, 1)),
        }
    }

    /// The vector with the given components.
    pub fn new(x: Fixed, y: Fixed) -> (r: Vec2)
        ensures
            r == (Vec2 { x, y }),
    {
        Vec2 { x, y }
    }

    /// The origin.
    pub fn zero() -> (r: Vec2)
        ensures
            r.x@ == 0,
            r.y@ == 0,
    {
        Vec2 { x: Fixed::zero(), y: Fixed::zero() }
    }

    /// Component-wise linear interpolation; `t` is not clamped.
    pub fn lerp(start: Vec2, end: Vec2, t: Fixed) -> (r: Vec2)
        ensures
            r == Vec2::spec_lerp(start, end, t),
    {
        Vec2 { x: Fixed::lerp(start.x, end.x, t), y: Fixed::lerp(start.y, end.y, t) }
    }

    /// Samples each component on its own between the matching components
    /// of `min` and `max`, drawing two words from `rng`.
    pub fn random_range(min: Vec2, max: Vec2, rng: &mut Rng) -> (r: Vec2)
        ensures
            final(rng)@ == advanced(old(rng)@, 2),
            r == Vec2::spec_random_range(min, max, old(rng)@),
    {
        let x = Fixed::random_range(min.x, max.x, rng);
        let y = Fixed::random_range(min.y, max.y, rng);
        proof {
            crate::random::lemma_advanced_add(old(rng)@, 1, 1);
        }
        Vec2 { x, y }
    }
}

impl core::ops::Add for Vec2 {
    type Output = Vec2;

    /// Component-wise sum.
    fn add(self, rhs: Vec2) -> (r: Vec2) {
        Vec2 { x: self.x + rhs.x, y: self.y + rhs.y }
    }
}

impl vstd::std_specs::ops::AddSpecImpl for Vec2 {
    open spec fn obeys_add_spec() -> bool {
        true
    }

    open spec fn add_req(self, rhs: Vec2) -> bool {
        true
    }

    open spec fn add_spec(self, rhs: Vec2) -> Vec2 {
        self.spec_add(rhs)
    }
}

impl core::ops::Neg for Vec2 {
    type Output = Vec2;

    /// Component-wise negation.
    fn neg(self) -> (r: Vec2) {
        Vec2 { x: self.x.neg(), y: self.y.neg() }
    }
}

impl vstd::std_specs::ops::NegSpecImpl for Vec2 {
    open spec fn obeys_neg_spec() -> bool {
        true
    }

    open spec fn neg_req(self) -> bool {
        true
    }

    open spec fn neg_spec(self) -> Vec2 {
        self.spec_neg()
    }
}

/// A color of four channels: red, green, blue, alpha. A channel is
/// nominally between zero and one, and is never clamped to that range.
#[derive(Clone, Copy, Debug, PartialEq, Eq, Structural)]
pub struct Color32(pub Fixed, pub Fixed, pub Fixed, pub Fixed);

impl Color32 {
    /// The per-channel sum.
    pub open spec fn spec_add(self, rhs: Color32) -> Color32 {
        Color32(
            self.0.spec_add(rhs.0),
            self.1.spec_add(rhs.1),
            self.2.spec_add(rhs.2),
            self.3.spec_add(rhs.3),
        )
    }

    /// The per-channel interpolation.
    pub open spec fn spec_lerp(start: Color32, end: Color32, t: Fixed) -> Color32 {
        Color32(
            Fixed::spec_lerp(start.0, end.0, t),
            Fixed::spec_lerp(start.1, end.1, t),
            Fixed::spec_lerp(start.2, end.2, t),
            Fixed::spec_lerp(start.3, end.3, t),
        )
    }

    /// The color sampled by the first four words of a generator in `state`,
    /// one word per channel in the order red, green, blue, alpha.
    pub open spec fn spec_random_range(min: Color32, max: Color32, state: u64) -> Color32 {
        Color32(
            Fixed::spec_sample(min.0, max.0, draw(state, 0)),
            Fixed::spec_sample(min.1, max.1, draw(state, 1)),
            Fixed::spec_sample(min.2, max.2, draw(state, 2)),
            Fixed::spec_sample(min.3, max.3, draw(state, 3)),
        )
    }

    /// Opaque black.
    pub fn black() -> (r: Color32)
        ensures
            r == Color32(Fixed { raw: 0 }, Fixed { raw: 0 }, Fixed { raw: 0 }, Fixed { raw: 1_000_000 }),
    {
        Color32(Fixed::zero(), Fixed::zero(), Fixed::zero(), Fixed::one())
    }

    /// Opaque white.
    pub fn white() -> (r: Color32)
        ensures
            r == Color32(
                Fixed { raw: 1_000_000 },
                Fixed { raw: 1_000_000 },
                Fixed { raw: 1_000_000 },
                Fixed { raw: 1_000_000 },
            ),
    {
        Color32(Fixed::one(), Fixed::one(), Fixed::one(), Fixed::one())
    }

    /// All four channels zero: transparent black.
    pub fn zeroes() -> (r: Color32)
        ensures
            r == Color32(Fixed { raw: 0 }, Fixed { raw: 0 }, Fixed { raw: 0 }, Fixed { raw: 0 }),
    {
        Color32(Fixed::zero(), Fixed::zero(), Fixed::zero(), Fixed::zero())
    }

    /// Per-channel linear interpolation `start + (end - start) * t`;
    /// `t` is not clamped.
    pub fn lerp(start: Color32, end: Color32, t: Fixed) -> (r: Color32)
        ensures
            r == Color32::spec_lerp(start, end, t),
    {
        Color32(
            Fixed::lerp(start.0, end.0, t),
            Fixed::lerp(start.1, end.1, t),
            Fixed::lerp(start.2, end.2, t),
            Fixed::lerp(start.3, end.3, t),
        )
    }

    /// Samples each channel on its own between the matching channels of
    /// `min` and `max`, drawing four words from `rng`.
    pub fn random_range(min: Color32, max: Color32, rng: &mut Rng) -> (r: Color32)
        ensures
            final(rng)@ == advanced(old(rng)@, 4),
            r == Color32::spec_random_range(min, max, old(rng)@),
    {
        let red = Fixed::random_range(min.0, max.0, rng);
        let green = Fixed::random_range(min.1, max.1, rng);
        let blue = Fixed::random_range(min.2, max.2, rng);
        let alpha = Fixed::random_range(min.3, max.3, rng);
        proof {
            crate::random::lemma_advanced_add(old(rng)@, 1, 1);
            crate::random::lemma_advanced_add(old(rng)@, 2, 1);
            crate::random::lemma_advanced_add(old(rng)@, 3, 1);
        }
        Color32(red, green, blue, alpha)
    }
}

impl core::ops::Add for Color32 {
    type Output = Color32;

    /// Per-channel sum.
    fn add(self, rhs: Color32) -> (r: Color32) {
        Color32(self.0 + rhs.0, self.1 + rhs.1, self.2 + rhs.2, self.3 + rhs.3)
    }
}

impl vstd::std_specs::ops::AddSpecImpl for Color32 {
    open spec fn obeys_add_spec() -> bool {
        true
    }

    open spec fn add_req(self, rhs: Color32) -> bool {
        true
    }

    open spec fn add_spec(self, rhs: Color32) -> Color32 {
        self.spec_add(rhs)
    }
}

} // verus!
