//! What every vector shape offers: its outline, and a position and a tangent
//! rotation on its border.

use vstd::prelude::*;
use crate::bezpath::BezPath;
use crate::fixed::Fixed;
use crate::point::{Point, Rotation};

verus! {

/// The outline of a vector shape, as the renderer is to draw it.
#[derive(Debug)]
pub enum Shape {
    /// The straight line from `p0` to `p1`.
    Line { p0: Point, p1: Point },
    /// The axis-aligned rectangle between the corners `(x0, y0)` and
    /// `(x1, y1)`, its corners rounded with `radius`.
    RoundedRect { x0: Fixed, y0: Fixed, x1: Fixed, y1: Fixed, radius: Fixed },
    /// The circle around `center`.
    Circle { center: Point, radius: Fixed },
    /// A Bézier path.
    Path(BezPath),
}

/// A vector shape.
pub trait Vector {
    /// The position on the border at `time`.
    spec fn border_point(&self, time: Fixed) -> Point;

    /// The rotation of the border's tangent at `time`.
    spec fn border_tangent(&self, time: Fixed) -> Rotation;

    /// The outline of the shape.
    fn shape(&self) -> Shape;

    /// Translation of the border at a specific `time` value.
    fn border_translation(&self, time: Fixed) -> (r: Point)
        ensures
            r == self.border_point(time),
    ;

    /// The rotation at the tangent of the border at a specific `time` value.
    fn border_rotation(&self, time: Fixed) -> (r: Rotation)
        ensures
            r == self.border_tangent(time),
    ;
}

} // verus!
