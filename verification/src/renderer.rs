//! What the particle system hands to a rendering backend.

use vstd::prelude::*;
use crate::fixed::Fixed;
use crate::math::Color32;

verus! {

/// A colored rectangle in the emitter's coordinate space.
#[derive(Clone, Copy, Debug, PartialEq, Eq, Structural)]
pub struct Quad {
    pub x: Fixed,
    pub y: Fixed,
    pub width: Fixed,
    pub height: Fixed,
    pub color: Color32,
}

impl Quad {
    /// The quad at `(x, y)` of the given size and color.
    pub fn new_from_position_and_size_and_color(
        x: Fixed,
        y: Fixed,
        width: Fixed,
        height: Fixed,
        color: Color32,
    ) -> (r: Quad)
        ensures
            r == (Quad { x, y, width, height, color }),
    {
        Quad { x, y, width, height, color }
    }
}

} // verus!
