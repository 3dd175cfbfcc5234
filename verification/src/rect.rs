//! Rectangles with an anchor and rounded corners.

use vstd::prelude::*;
use crate::fixed::{Fixed, ONE_RAW, saturate, saturate_i128, scale_raw, scale_wide, wrap_unit_raw};
use crate::point::{Point, Rotation, lerp_point, origin};
use crate::vector::{Shape, Vector};

verus! {

/// The raw value of a quarter: a quarter of a turn, and the share of the time
/// that each edge of a rectangle takes.
pub const QUARTER_RAW: i64 = 1073741824;

/// The raw value of a half.
pub const HALF_RAW: i64 = 2147483648;

/// The raw value of three quarters.
pub const THREE_QUARTERS_RAW: i64 = 3221225472;

/// A rectangle.
#[derive(Debug, Clone, Copy, PartialEq, Eq, Structural)]
pub struct VelloRect {
    /// Width and height.
    pub size: Point,
    /// Origin of the rect, as a fraction of its size.
    pub anchor: Point,
    /// Border radius.
    pub radius: Fixed,
}

/// The lower coordinate of a side of length `size` whose origin lies at the
/// fraction `anchor` of it: `-size * anchor`.
pub open spec fn low_side(size: Fixed, anchor: Fixed) -> Fixed {
    Fixed { raw: saturate(scale_raw(-size.raw, anchor.raw as int)) as i64 }
}

/// The upper coordinate of such a side: `size * (1 - anchor)`.
pub open spec fn high_side(size: Fixed, anchor: Fixed) -> Fixed {
    Fixed { raw: saturate(scale_raw(size.raw as int, ONE_RAW - anchor.raw)) as i64 }
}

/// The edge, from zero to three, on which the raw time `time` falls: the time
/// is wrapped into `[0, 1)`, of which each edge takes a quarter.
pub open spec fn rect_edge(time: int) -> int {
    (wrap_unit_raw(time) * 4) / (ONE_RAW as int)
}

/// The local parameter on that edge, in `[0, 1)`.
pub open spec fn rect_local(time: int) -> int {
    (wrap_unit_raw(time) * 4) % (ONE_RAW as int)
}

impl VelloRect {
    /// The left side.
    pub open spec fn left(&self) -> Fixed {
        low_side(self.size.x, self.anchor.x)
    }

    /// The top side, at the lower `y`: `y` grows downwards.
    pub open spec fn top(&self) -> Fixed {
        low_side(self.size.y, self.anchor.y)
    }

    /// The right side.
    pub open spec fn right(&self) -> Fixed {
        high_side(self.size.x, self.anchor.x)
    }

    /// The bottom side, at the higher `y`.
    pub open spec fn bottom(&self) -> Fixed {
        high_side(self.size.y, self.anchor.y)
    }

    /// The corner at which the border starts.
    pub open spec fn bottom_left(&self) -> Point {
        Point { x: self.left(), y: self.bottom() }
    }

    /// The corner reached after a quarter of the time.
    pub open spec fn bottom_right(&self) -> Point {
        Point { x: self.right(), y: self.bottom() }
    }

    /// The corner reached after half of the time.
    pub open spec fn top_right(&self) -> Point {
        Point { x: self.right(), y: self.top() }
    }

    /// The corner reached after three quarters of the time.
    pub open spec fn top_left(&self) -> Point {
        Point { x: self.left(), y: self.top() }
    }

    /// A rectangle of the given size, anchored at its centre, with sharp
    /// corners.
    pub fn new(width: Fixed, height: Fixed) -> (r: VelloRect)
        ensures
            r.size == (Point { x: width, y: height }),
            r.anchor == (Point { x: Fixed { raw: HALF_RAW }, y: Fixed { raw: HALF_RAW } }),
            r.radius.raw == 0,
    {
        VelloRect {
            size: Point::new(width, height),
            anchor: Point::splat(Fixed { raw: HALF_RAW }),
            radius: Fixed::zero(),
        }
    }

    /// The same with another size.
    pub fn with_size(self, width: Fixed, height: Fixed) -> (r: VelloRect)
        ensures
            r == (VelloRect { size: Point { x: width, y: height }, ..self }),
    {
        VelloRect { size: Point::new(width, height), anchor: self.anchor, radius: self.radius }
    }

    /// The same with another anchor.
    pub fn with_anchor(self, x: Fixed, y: Fixed) -> (r: VelloRect)
        ensures
            r == (VelloRect { anchor: Point { x, y }, ..self }),
    {
        VelloRect { size: self.size, anchor: Point::new(x, y), radius: self.radius }
    }

    /// The same with another border radius.
    pub fn with_radius(self, radius: Fixed) -> (r: VelloRect)
        ensures
            r == (VelloRect { radius, ..self }),
    {
        VelloRect { size: self.size, anchor: self.anchor, radius }
    }

    /// The `x` of the left side.
    #[inline]
    pub fn x0(&self) -> (r: Fixed)
        ensures
            r == self.left(),
    {
        Fixed {
            raw: saturate_i128(
                scale_wide(-(self.size.x.raw as i128), self.anchor.x.raw as i128),
            ),
        }
    }

    /// The `y` of the top side.
    #[inline]
    pub fn y0(&self) -> (r: Fixed)
        ensures
            r == self.top(),
    {
        Fixed {
            raw: saturate_i128(
                scale_wide(-(self.size.y.raw as i128), self.anchor.y.raw as i128),
            ),
        }
    }

    /// The `x` of the right side.
    #[inline]
    pub fn x1(&self) -> (r: Fixed)
        ensures
            r == self.right(),
    {
        Fixed {
            raw: saturate_i128(
                scale_wide(self.size.x.raw as i128, ONE_RAW as i128 - self.anchor.x.raw as i128),
            ),
        }
    }

    /// The `y` of the bottom side.
    #[inline]
    pub fn y1(&self) -> (r: Fixed)
        ensures
            r == self.bottom(),
    {
        Fixed {
            raw: saturate_i128(
                scale_wide(self.size.y.raw as i128, ONE_RAW as i128 - self.anchor.y.raw as i128),
            ),
        }
    }
}

impl Default for VelloRect {
    /// The rectangle of no size, anchored at its corner.
    fn default() -> (r: VelloRect)
        ensures
            r == (VelloRect { size: origin(), anchor: origin(), radius: Fixed { raw: 0 } }),
    {
        VelloRect { size: Point::zero(), anchor: Point::zero(), radius: Fixed::zero() }
    }
}

impl Vector for VelloRect {
    /// The position on the border at `time`, wrapped into `[0, 1)`. The four
    /// edges follow each other, a quarter of the time each: the bottom from
    /// left to right, the right side upwards, the top from right to left, and
    /// the left side downwards.
    open spec fn border_point(&self, time: Fixed) -> Point {
        let t = Fixed { raw: rect_local(time.raw as int) as i64 };
        let edge = rect_edge(time.raw as int);
        if edge == 0 {
            Point { x: lerp_point(self.bottom_left(), self.bottom_right(), t).x, y: self.bottom() }
        } else if edge == 1 {
            Point { x: self.right(), y: lerp_point(self.bottom_right(), self.top_right(), t).y }
        } else if edge == 2 {
            Point { x: lerp_point(self.top_right(), self.top_left(), t).x, y: self.top() }
        } else {
            Point { x: self.left(), y: lerp_point(self.top_left(), self.bottom_left(), t).y }
        }
    }

    /// The rotation of the edge on which `time` falls: no turn on the first
    /// edge, then three quarters, a half and a quarter of a turn.
    open spec fn border_tangent(&self, time: Fixed) -> Rotation {
        let edge = rect_edge(time.raw as int);
        if edge == 0 {
            Rotation::Turns(Fixed { raw: 0 })
        } else if edge == 1 {
            Rotation::Turns(Fixed { raw: THREE_QUARTERS_RAW })
        } else if edge == 2 {
            Rotation::Turns(Fixed { raw: HALF_RAW })
        } else {
            Rotation::Turns(Fixed { raw: QUARTER_RAW })
        }
    }

    fn shape(&self) -> (r: Shape)
        ensures
            r == (Shape::RoundedRect {
                x0: self.left(),
                y0: self.top(),
                x1: self.right(),
                y1: self.bottom(),
                radius: self.radius,
            }),
    {
        Shape::RoundedRect {
            x0: self.x0(),
            y0: self.y0(),
            x1: self.x1(),
            y1: self.y1(),
            radius: self.radius,
        }
    }

    fn border_translation(&self, time: Fixed) -> (r: Point) {
        // Loop around the rect
        let time = time.wrap_unit();

        let scaled_time: i64 = time.raw * 4;
        let time_int: i64 = scaled_time / ONE_RAW;
        let t = Fixed { raw: scaled_time % ONE_RAW };

        match time_int {
            0 => Point::new(self.x0().lerp(self.x1(), t), self.y1()),
            1 => Point::new(self.x1(), self.y1().lerp(self.y0(), t)),
            2 => Point::new(self.x1().lerp(self.x0(), t), self.y0()),
            _ => Point::new(self.x0(), self.y0().lerp(self.y1(), t)),
        }
    }

    fn border_rotation(&self, time: Fixed) -> (r: Rotation) {
        // Loop around the rect
        let time = time.wrap_unit();

        let scaled_time: i64 = time.raw * 4;
        let time_int: i64 = scaled_time / ONE_RAW;

        match time_int {
            0 => Rotation::Turns(Fixed::zero()),
            1 => Rotation::Turns(Fixed { raw: THREE_QUARTERS_RAW }),
            2 => Rotation::Turns(Fixed { raw: HALF_RAW }),
            _ => Rotation::Turns(Fixed { raw: QUARTER_RAW }),
        }
    }
}

} // verus!
