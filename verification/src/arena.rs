//! Plain geometry: vectors in world units, the extent of the play field, and
//! how the physics engine moves a body.

use vstd::prelude::*;

verus! {

/// A position or a velocity, in whole world units (per second for a velocity).
#[derive(Debug, Clone, Copy, PartialEq, Eq, Hash, Structural)]
pub struct Vector {
    pub x: i64,
    pub y: i64,
}

impl Vector {
    /// The vector with both components zero.
    pub open spec fn spec_zero() -> Vector {
        Vector { x: 0, y: 0 }
    }

    #[verifier::when_used_as_spec(spec_zero)]
    pub fn zero() -> (v: Vector)
        ensures
            v == Vector::spec_zero(),
    {
        Vector { x: 0, y: 0 }
    }

    pub fn new(x: i64, y: i64) -> (v: Vector)
        ensures
            v == (Vector { x, y }),
    {
        Vector { x, y }
    }
}

/// How the physics engine moves a body.
#[derive(Debug, Clone, Copy, PartialEq, Eq, Hash, Structural)]
pub enum BodyType {
    /// Moved by forces and impacts.
    Dynamic,
    /// Never moved.
    Static,
    /// Moved by the velocity that the game commands, and by nothing else.
    KinematicVelocityBased,
}

/// The play field: a rectangle of `width` by `height` centred on the origin.
#[derive(Debug, Clone, Copy, PartialEq, Eq, Hash, Structural)]
pub struct Arena {
    pub width: u32,
    pub height: u32,
}

impl Arena {
    /// Distance from the centre to the left and right edges.
    pub open spec fn half_width(self) -> int {
        self.width as int / 2
    }

    /// Distance from the centre to the top and bottom edges.
    pub open spec fn half_height(self) -> int {
        self.height as int / 2
    }

    /// Whether `p` lies beyond one of the four edges.
    pub open spec fn is_outside(self, p: Vector) -> bool {
        ||| p.x > self.half_width()
        ||| p.x < -self.half_width()
        ||| p.y > self.half_height()
        ||| p.y < -self.half_height()
    }

    pub fn new(width: u32, height: u32) -> (arena: Arena)
        ensures
            arena == (Arena { width, height }),
    {
        Arena { width, height }
    }

    /// The distances from the centre to the side edges and to the top and
    /// bottom edges, in that order.
    pub fn half_extents(self) -> (half: (i64, i64))
        ensures
            half.0 == self.half_width(),
            half.1 == self.half_height(),
    {
        ((self.width / 2) as i64, (self.height / 2) as i64)
    }

    /// Tells whether `p` lies beyond one of the four edges.
    pub fn outside(self, p: Vector) -> (outside: bool)
        ensures
            outside == self.is_outside(p),
    {
        let (hw, hh) = self.half_extents();
        p.x > hw || p.x < -hw || p.y > hh || p.y < -hh
    }
}

} // verus!
