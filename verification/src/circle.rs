//! Circles around the origin.

use vstd::prelude::*;
use crate::fixed::{Fixed, saturate};
use crate::point::{Point, Rotation, origin};
use crate::vector::Shape;

verus! {

/// A circle around the origin.
///
/// The position on its border is a sine and a cosine of the time, which
/// fixed-point arithmetic does not have: this type offers the outline and the
/// rotation of the tangent only.
#[derive(Debug, Clone, Copy, PartialEq, Eq, Structural)]
pub struct VelloCircle {
    pub radius: Fixed,
}

impl VelloCircle {
    /// The circle with the given radius.
    pub fn new(radius: Fixed) -> (r: VelloCircle)
        ensures
            r.radius == radius,
    {
        VelloCircle { radius }
    }

    /// The same with another radius.
    pub fn with_radius(self, radius: Fixed) -> (r: VelloCircle)
        ensures
            r.radius == radius,
    {
        VelloCircle { radius }
    }

    /// The outline of the circle.
    pub fn shape(&self) -> (r: Shape)
        ensures
            r == (Shape::Circle { center: origin(), radius: self.radius }),
    {
        Shape::Circle { center: Point::zero(), radius: self.radius }
    }

    /// The rotation at the tangent of the border at a specific `time` value:
    /// as many turns as the time, in the negative sense.
    pub fn border_rotation(&self, time: Fixed) -> (r: Rotation)
        ensures
            r == Rotation::Turns(Fixed { raw: saturate(-time.raw) as i64 }),
    {
        Rotation::Turns(time.negated())
    }
}

impl Default for VelloCircle {
    /// The circle of radius zero.
    fn default() -> (r: VelloCircle)
        ensures
            r.radius.raw == 0,
    {
        VelloCircle { radius: Fixed::zero() }
    }
}

} // verus!
