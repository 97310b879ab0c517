//! Integer vectors in the plane and the mathematical points they stand for.

use vstd::prelude::*;

verus! {

/// A point of the unbounded integer plane; the model of a [`Vec2`].
pub struct Point {
    pub x: int,
    pub y: int,
}

impl Point {
    /// The origin.
    pub open spec fn zero() -> Point {
        Point { x: 0, y: 0 }
    }

    /// Component-wise sum.
    pub open spec fn plus(self, other: Point) -> Point {
        Point { x: self.x + other.x, y: self.y + other.y }
    }

    /// Both components multiplied by `k`.
    pub open spec fn scaled(self, k: int) -> Point {
        Point { x: self.x * k, y: self.y * k }
    }

    /// Whether both components can be held by an `i64`.
    pub open spec fn fits(self) -> bool {
        &&& i64::MIN <= self.x <= i64::MAX
        &&& i64::MIN <= self.y <= i64::MAX
    }
}

/// A vector with machine-integer components, used for positions and for
/// movement directions alike.
#[derive(Clone, Copy, Debug, PartialEq, Eq, Structural)]
pub struct Vec2 {
    pub x: i64,
    pub y: i64,
}

impl View for Vec2 {
    type V = Point;

    open spec fn view(&self) -> Point {
        Point { x: self.x as int, y: self.y as int }
    }
}

impl Vec2 {
    /// The vector with the given components.
    pub fn new(x: i64, y: i64) -> (v: Vec2)
        ensures
            v.x == x,
            v.y == y,
    {
        Vec2 { x, y }
    }
}

} // verus!
