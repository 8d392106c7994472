//! Position and scale of an object in the plane.

use vstd::prelude::*;
use crate::fixed::Fixed;
use crate::math::Vec2;

verus! {

/// Where an object is and how large it is drawn.
#[derive(Clone, Copy, Debug, PartialEq, Eq, Structural)]
pub struct Transform2D {
    pub position: Vec2,
    pub scale: Vec2,
}

impl Transform2D {
    /// A child transform placed in a parent's frame: the positions add and
    /// the scale is the child's own; the parent's scale is not inherited.
    pub open spec fn spec_add(self, child: Transform2D) -> Transform2D {
        Transform2D { position: self.position.spec_add(child.position), scale: child.scale }
    }

    /// A transform at the origin with the given scale.
    pub open spec fn spec_new_with_scale(x: Fixed, y: Fixed) -> Transform2D {
        Transform2D {
            position: Vec2 { x: Fixed { raw: 0 }, y: Fixed { raw: 0 } },
            scale: Vec2 { x, y },
        }
    }

    /// A transform at the origin with the given scale.
    pub fn new_with_scale(x: Fixed, y: Fixed) -> (r: Transform2D)
        ensures
            r == Transform2D::spec_new_with_scale(x, y),
    {
        Transform2D { position: Vec2::zero(), scale: Vec2::new(x, y) }
    }
}

impl Default for Transform2D {
    /// The identity: at the origin, at unit scale.
    fn default() -> (r: Transform2D)
        ensures
            r == Transform2D::spec_new_with_scale(Fixed { raw: 1_000_000 }, Fixed { raw: 1_000_000 }),
    {
        Transform2D::new_with_scale(Fixed::one(), Fixed::one())
    }
}

impl core::ops::Add for Transform2D {
    type Output = Transform2D;

    /// Composes `self`, the parent, with `child`.
    fn add(self, child: Transform2D) -> (r: Transform2D) {
        Transform2D { position: self.position + child.position, scale: child.scale }
    }
}

impl vstd::std_specs::ops::AddSpecImpl for Transform2D {
    open spec fn obeys_add_spec() -> bool {
        true
    }

    open spec fn add_req(self, child: Transform2D) -> bool {
        true
    }

    open spec fn add_spec(self, child: Transform2D) -> Transform2D {
        self.spec_add(child)
    }
}

} // verus!
