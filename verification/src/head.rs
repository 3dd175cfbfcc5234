//! Heads: markers placed on the border of a vector shape.

use vstd::prelude::*;
use crate::fixed::{Fixed, ONE_RAW};
use crate::point::{Point, Rotation, offset_point, origin};
use crate::vector::Vector;

verus! {

/// Vector defining the shape of the head.
#[derive(Debug, Clone, Copy)]
pub struct HeadVector<V: Vector>(pub V);

/// Positioning configurations of a head.
#[derive(Debug, Clone, Copy, PartialEq, Eq, Structural)]
pub struct Head {
    /// Percentage position of the shape's border.
    pub time: Fixed,
    /// Scale of the head.
    pub scale: Fixed,
    /// Translation offset from the tangent of the shape.
    pub translation_offset: Point,
    /// Rotational offset from the tangent of the shape, in turns.
    pub rotation_offset: Fixed,
}

/// The placement of a head: its shape is rotated by `rotation` and then by
/// `rotation_offset` turns, after that scaled by `scale`, and at last moved
/// by `translation`.
#[derive(Debug, Clone, Copy, PartialEq, Eq, Structural)]
pub struct HeadTransform {
    pub rotation: Rotation,
    pub rotation_offset: Fixed,
    pub scale: Fixed,
    pub translation: Point,
}

/// What is needed for drawing a head on the border of a vector shape.
#[derive(Debug, Clone, Copy)]
pub struct HeadBundle<V: Vector> {
    pub vector: HeadVector<V>,
    pub head: Head,
    pub transform: HeadTransform,
}

/// The head at the end of the border, in its own size, with no offset.
pub open spec fn default_head() -> Head {
    Head {
        time: Fixed { raw: ONE_RAW },
        scale: Fixed { raw: ONE_RAW },
        translation_offset: origin(),
        rotation_offset: Fixed { raw: 0 },
    }
}

/// The placement that changes nothing.
pub open spec fn identity_transform() -> HeadTransform {
    HeadTransform {
        rotation: Rotation::Turns(Fixed { raw: 0 }),
        rotation_offset: Fixed { raw: 0 },
        scale: Fixed { raw: ONE_RAW },
        translation: origin(),
    }
}

/// The placement of `head` at a sample of a border: the sample's position
/// moved by the head's offset, the sample's rotation with the head's
/// rotational offset, and the head's scale.
pub open spec fn placement_at(position: Point, rotation: Rotation, head: Head) -> HeadTransform {
    HeadTransform {
        rotation,
        rotation_offset: head.rotation_offset,
        scale: head.scale,
        translation: offset_point(position, head.translation_offset),
    }
}

/// The placement of `head` on the border of `vector`: at the sample of the
/// border at the head's time.
pub open spec fn head_placement<V: Vector>(vector: &V, head: Head) -> HeadTransform {
    placement_at(vector.border_point(head.time), vector.border_tangent(head.time), head)
}

impl Default for Head {
    fn default() -> (r: Head)
        ensures
            r == default_head(),
    {
        Head {
            time: Fixed::one(),
            scale: Fixed::one(),
            translation_offset: Point::zero(),
            rotation_offset: Fixed::zero(),
        }
    }
}

impl Head {
    /// The head at the end of the border, in its own size, with no offset.
    pub fn new() -> (r: Head)
        ensures
            r == default_head(),
    {
        Head {
            time: Fixed::one(),
            scale: Fixed::one(),
            translation_offset: Point::zero(),
            rotation_offset: Fixed::zero(),
        }
    }

    /// The same head at another time.
    pub fn with_time(self, time: Fixed) -> (r: Head)
        ensures
            r == (Head { time, ..self }),
    {
        Head { time, ..self }
    }

    /// The same head with another scale.
    pub fn with_scale(self, scale: Fixed) -> (r: Head)
        ensures
            r == (Head { scale, ..self }),
    {
        Head { scale, ..self }
    }

    /// The same head with another offset.
    pub fn with_offset(self, offset: Point) -> (r: Head)
        ensures
            r == (Head { translation_offset: offset, ..self }),
    {
        Head { translation_offset: offset, ..self }
    }

    /// The same head with the same offset along both axes.
    pub fn with_offset_splat(self, offset: Fixed) -> (r: Head)
        ensures
            r == (Head { translation_offset: Point { x: offset, y: offset }, ..self }),
    {
        Head { translation_offset: Point::splat(offset), ..self }
    }

    /// Places the head at a sample of a border: at `position`, where the
    /// tangent has the rotation `rotation`.
    pub fn place(&self, position: Point, rotation: Rotation) -> (r: HeadTransform)
        ensures
            r == placement_at(position, rotation, *self),
    {
        HeadTransform {
            rotation,
            rotation_offset: self.rotation_offset,
            scale: self.scale,
            translation: position.offset(self.translation_offset),
        }
    }

    /// The same head with another rotational offset.
    pub fn with_rotation_offset(self, rotation_offset: Fixed) -> (r: Head)
        ensures
            r == (Head { rotation_offset, ..self }),
    {
        Head { rotation_offset, ..self }
    }
}

impl Default for HeadTransform {
    fn default() -> (r: HeadTransform)
        ensures
            r == identity_transform(),
    {
        HeadTransform {
            rotation: Rotation::Turns(Fixed::zero()),
            rotation_offset: Fixed::zero(),
            scale: Fixed::one(),
            translation: Point::zero(),
        }
    }
}

impl<V: Vector> HeadBundle<V> {
    /// The bundle for a head of the shape `vector`, with the default
    /// positioning and not yet placed.
    pub fn new(vector: V) -> (r: HeadBundle<V>)
        ensures
            r.vector.0 == vector,
            r.head == default_head(),
            r.transform == identity_transform(),
    {
        HeadBundle {
            vector: HeadVector(vector),
            head: Head::new(),
            transform: HeadTransform {
                rotation: Rotation::Turns(Fixed::zero()),
                rotation_offset: Fixed::zero(),
                scale: Fixed::one(),
                translation: Point::zero(),
            },
        }
    }
}

/// Prepares the placement of a head on the border of a vector shape.
pub fn prepare_head<V: Vector>(vector: &V, head: &Head) -> (r: HeadTransform)
    ensures
        r == head_placement(vector, *head),
{
    let translation = vector.border_translation(head.time);
    let rotation = vector.border_rotation(head.time);

    head.place(translation, rotation)
}

} // verus!
