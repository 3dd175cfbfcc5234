//! Arrow heads of a fixed kind, placed at a position with an offset.

use vstd::prelude::*;
use crate::fixed::{Fixed, saturate, scale_raw};
use crate::point::{Point, offset_point, origin};
use crate::rect::HALF_RAW;
use crate::vector::Shape;

verus! {

/// The kind of an arrow's head.
#[derive(Debug, Clone, Copy, PartialEq, Eq, Structural)]
pub enum ArrowHead {
    Triangle,
    Square,
    Circle,
}

impl Default for ArrowHead {
    fn default() -> (r: ArrowHead)
        ensures
            r == ArrowHead::Triangle,
    {
        ArrowHead::Triangle
    }
}

/// An arrow head.
#[derive(Debug, Clone, Copy, PartialEq, Eq, Structural)]
pub struct VelloArrow {
    pub head: ArrowHead,
    /// Position of the parent.
    pub position: Point,
    /// Angle of the parent, in turns.
    pub angle: Fixed,
    /// Offset from the position.
    pub offset: Point,
    /// Rotation of the head, in turns.
    pub rotation: Fixed,
    /// Size of the head.
    pub size: Fixed,
}

/// The arrow with a triangle for its head, at the origin, of no size.
pub open spec fn default_arrow() -> VelloArrow {
    VelloArrow {
        head: ArrowHead::Triangle,
        position: origin(),
        angle: Fixed { raw: 0 },
        offset: origin(),
        rotation: Fixed { raw: 0 },
        size: Fixed { raw: 0 },
    }
}

/// Half of a size, rounded down.
pub open spec fn half(size: Fixed) -> Fixed {
    Fixed { raw: saturate(scale_raw(size.raw as int, HALF_RAW as int)) as i64 }
}

/// The square of the given size around `center`.
pub open spec fn square_around(center: Point, size: Fixed) -> Shape {
    Shape::RoundedRect {
        x0: Fixed { raw: saturate(center.x.raw - half(size).raw) as i64 },
        y0: Fixed { raw: saturate(center.y.raw - half(size).raw) as i64 },
        x1: Fixed { raw: saturate(center.x.raw + half(size).raw) as i64 },
        y1: Fixed { raw: saturate(center.y.raw + half(size).raw) as i64 },
        radius: Fixed { raw: 0 },
    }
}

impl VelloArrow {
    /// The centre of the head: the position moved by the offset.
    pub open spec fn center(&self) -> Point {
        offset_point(self.position, self.offset)
    }

    /// An arrow with every field given.
    pub fn absolute(
        head: ArrowHead,
        position: Point,
        angle: Fixed,
        offset: Point,
        rotation: Fixed,
        size: Fixed,
    ) -> (r: VelloArrow)
        ensures
            r == (VelloArrow { head, position, angle, offset, rotation, size }),
    {
        VelloArrow { head, position, angle, offset, rotation, size }
    }

    /// An arrow at the origin.
    pub fn new(head: ArrowHead, offset: Point, rotation: Fixed, size: Fixed) -> (r: VelloArrow)
        ensures
            r == (VelloArrow { head, offset, rotation, size, ..default_arrow() }),
    {
        VelloArrow {
            head,
            position: Point::zero(),
            angle: Fixed::zero(),
            offset,
            rotation,
            size,
        }
    }

    /// An arrow at the origin with no offset and no rotation.
    pub fn new_simple(head: ArrowHead, size: Fixed) -> (r: VelloArrow)
        ensures
            r == (VelloArrow { head, size, ..default_arrow() }),
    {
        VelloArrow {
            head,
            position: Point::zero(),
            angle: Fixed::zero(),
            offset: Point::zero(),
            rotation: Fixed::zero(),
            size,
        }
    }

    /// The same with another head.
    pub fn with_head(self, head: ArrowHead) -> (r: VelloArrow)
        ensures
            r == (VelloArrow { head, ..self }),
    {
        VelloArrow { head, ..self }
    }

    /// The same with another size.
    pub fn with_size(self, size: Fixed) -> (r: VelloArrow)
        ensures
            r == (VelloArrow { size, ..self }),
    {
        VelloArrow { size, ..self }
    }

    /// The same with another offset.
    pub fn with_offset(self, offset: Point) -> (r: VelloArrow)
        ensures
            r == (VelloArrow { offset, ..self }),
    {
        VelloArrow { offset, ..self }
    }

    /// The same with another rotation.
    pub fn with_rotation(self, angle: Fixed) -> (r: VelloArrow)
        ensures
            r == (VelloArrow { rotation: angle, ..self }),
    {
        VelloArrow { rotation: angle, ..self }
    }

    /// The outline of the head: a square of the arrow's size, or a circle
    /// with the size as its radius, around the centre. A triangle has no
    /// outline yet.
    pub fn shape(&self) -> (r: Shape)
        requires
            self.head != ArrowHead::Triangle,
        ensures
            self.head == ArrowHead::Square ==> r == square_around(self.center(), self.size),
            self.head == ArrowHead::Circle ==> r == (Shape::Circle {
                center: self.center(),
                radius: self.size,
            }),
    {
        let center = self.position.offset(self.offset);
        match self.head {
            ArrowHead::Square => {
                let half = self.size.times(Fixed { raw: HALF_RAW });
                Shape::RoundedRect {
                    x0: center.x.minus(half),
                    y0: center.y.minus(half),
                    x1: center.x.plus(half),
                    y1: center.y.plus(half),
                    radius: Fixed::zero(),
                }
            },
            _ => Shape::Circle { center, radius: self.size },
        }
    }
}

impl Default for VelloArrow {
    fn default() -> (r: VelloArrow)
        ensures
            r == default_arrow(),
    {
        VelloArrow {
            head: ArrowHead::Triangle,
            position: Point::zero(),
            angle: Fixed::zero(),
            offset: Point::zero(),
            rotation: Fixed::zero(),
            size: Fixed::zero(),
        }
    }
}

} // verus!
