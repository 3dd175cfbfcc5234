//! Points of the plane, directions, and rotations.

use vstd::prelude::*;
use crate::fixed::{Fixed, lerp_raw, saturate};

verus! {

/// A point of the plane, or a displacement between two points.
#[derive(Clone, Copy, Debug, PartialEq, Eq, Structural)]
pub struct Point {
    pub x: Fixed,
    pub y: Fixed,
}

/// The exact difference of two points, in raw units. Only its direction
/// matters: the angle of the vector `(dx, dy)`, and angle zero for the zero
/// vector.
#[derive(Clone, Copy, Debug, PartialEq, Eq, Structural)]
pub struct Direction {
    pub dx: i128,
    pub dy: i128,
}

/// The rotation of a tangent: an angle from the positive x axis towards the
/// positive y axis.
#[derive(Clone, Copy, Debug, PartialEq, Eq, Structural)]
pub enum Rotation {
    /// An angle measured in full turns.
    Turns(Fixed),
    /// The angle of a direction vector.
    Along(Direction),
}

/// The point at `(0, 0)`.
pub open spec fn origin() -> Point {
    Point { x: Fixed { raw: 0 }, y: Fixed { raw: 0 } }
}

/// Linear interpolation between two points, coordinate by coordinate.
pub open spec fn lerp_point(a: Point, b: Point, t: Fixed) -> Point {
    Point {
        x: Fixed { raw: lerp_raw(a.x.raw as int, b.x.raw as int, t.raw as int) as i64 },
        y: Fixed { raw: lerp_raw(a.y.raw as int, b.y.raw as int, t.raw as int) as i64 },
    }
}

/// The sum of a point and a displacement, each coordinate saturating.
pub open spec fn offset_point(a: Point, b: Point) -> Point {
    Point {
        x: Fixed { raw: saturate(a.x.raw + b.x.raw) as i64 },
        y: Fixed { raw: saturate(a.y.raw + b.y.raw) as i64 },
    }
}

/// The direction that leads from `a` to `b`.
pub open spec fn direction_between(a: Point, b: Point) -> Direction {
    Direction { dx: (b.x.raw - a.x.raw) as i128, dy: (b.y.raw - a.y.raw) as i128 }
}

impl Point {
    /// The point with the given coordinates.
    pub fn new(x: Fixed, y: Fixed) -> (r: Point)
        ensures
            r == (Point { x, y }),
    {
        Point { x, y }
    }

    /// The point at `(0, 0)`.
    pub fn zero() -> (r: Point)
        ensures
            r == origin(),
    {
        Point { x: Fixed::zero(), y: Fixed::zero() }
    }

    /// The point with both coordinates equal to `v`.
    pub fn splat(v: Fixed) -> (r: Point)
        ensures
            r == (Point { x: v, y: v }),
    {
        Point { x: v, y: v }
    }

    /// Linear interpolation from `self` (at `t` zero) to `other` (at `t` one).
    pub fn lerp(self, other: Point, t: Fixed) -> (r: Point)
        requires
            t.in_unit(),
        ensures
            r == lerp_point(self, other, t),
    {
        Point { x: self.x.lerp(other.x, t), y: self.y.lerp(other.y, t) }
    }

    /// The sum of the point and a displacement, each coordinate saturating.
    pub fn offset(self, by: Point) -> (r: Point)
        ensures
            r == offset_point(self, by),
    {
        Point { x: self.x.plus(by.x), y: self.y.plus(by.y) }
    }

    /// The direction that leads from `self` to `other`.
    pub fn direction_to(self, other: Point) -> (r: Direction)
        ensures
            r == direction_between(self, other),
    {
        Direction {
            dx: other.x.raw as i128 - self.x.raw as i128,
            dy: other.y.raw as i128 - self.y.raw as i128,
        }
    }
}

/// At `t` zero the interpolation is the first point, at `t` one the second.
pub proof fn lemma_lerp_point_ends(a: Point, b: Point)
    ensures
        lerp_point(a, b, Fixed { raw: 0 }) == a,
        lerp_point(a, b, Fixed { raw: crate::fixed::ONE_RAW }) == b,
{
}

} // verus!
