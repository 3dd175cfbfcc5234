//! Straight lines.

use vstd::prelude::*;
use crate::fixed::{
    Fixed, ONE_RAW, clamp_unit_raw, floor_div, isqrt, lemma_side_within_length, ratio_raw,
    saturate, saturate_i128, scale_raw, scale_wide, sqrt_floor,
};
use crate::point::{Point, Rotation, lerp_point, direction_between, origin};
use crate::vector::{Shape, Vector};

verus! {

/// A straight line from `p0` to `p1`.
#[derive(Debug, Clone, Copy, PartialEq, Eq, Structural)]
pub struct VelloLine {
    pub p0: Point,
    pub p1: Point,
}

/// The length of the displacement `(dx, dy)`, rounded down, on raw values.
pub open spec fn length_raw(dx: int, dy: int) -> int {
    sqrt_floor(dx * dx + dy * dy)
}

/// A coordinate of the vector of the length `extension` along the
/// displacement `(dx, dy)`, on raw values: the share that `d`, one of the
/// two, has of the displacement's length, times the extension. Both the share
/// and the product are rounded down.
pub open spec fn along_raw(d: int, dx: int, dy: int, extension: int) -> int {
    scale_raw(extension, ratio_raw(d, length_raw(dx, dy)))
}

/// The line with both ends moved outwards by `extension` along the line. The
/// direction is that of the difference of the ends, each coordinate of which
/// saturates; a line of no length has no direction and stays as it is.
pub open spec fn extended(line: VelloLine, extension: Fixed) -> VelloLine {
    let dx = saturate(line.p1.x.raw - line.p0.x.raw);
    let dy = saturate(line.p1.y.raw - line.p0.y.raw);
    let ox = along_raw(dx, dx, dy, extension.raw as int);
    let oy = along_raw(dy, dx, dy, extension.raw as int);
    VelloLine {
        p0: Point {
            x: Fixed { raw: saturate(line.p0.x.raw - ox) as i64 },
            y: Fixed { raw: saturate(line.p0.y.raw - oy) as i64 },
        },
        p1: Point {
            x: Fixed { raw: saturate(line.p1.x.raw + ox) as i64 },
            y: Fixed { raw: saturate(line.p1.y.raw + oy) as i64 },
        },
    }
}

impl VelloLine {
    /// The line from `p0` to `p1`.
    pub fn new(p0: Point, p1: Point) -> (r: VelloLine)
        ensures
            r == (VelloLine { p0, p1 }),
    {
        VelloLine { p0, p1 }
    }

    /// The same line with another start.
    pub fn with_p0(self, p0: Point) -> (r: VelloLine)
        ensures
            r == (VelloLine { p0, p1: self.p1 }),
    {
        VelloLine { p0, p1: self.p1 }
    }

    /// The same line with another end.
    pub fn with_p1(self, p1: Point) -> (r: VelloLine)
        ensures
            r == (VelloLine { p0: self.p0, p1 }),
    {
        VelloLine { p0: self.p0, p1 }
    }

    /// The same line, longer by `extension` at both ends.
    pub fn extend(self, extension: Fixed) -> (r: VelloLine)
        ensures
            r == extended(self, extension),
    {
        let dx: i128 = saturate_i128(self.p1.x.raw as i128 - self.p0.x.raw as i128) as i128;
        let dy: i128 = saturate_i128(self.p1.y.raw as i128 - self.p0.y.raw as i128) as i128;
        assert(0 <= dx * dx <= 0x4000_0000_0000_0000_0000_0000_0000_0000) by (nonlinear_arith)
            requires
                -0x8000_0000_0000_0000 <= dx <= 0x8000_0000_0000_0000,
        ;
        assert(0 <= dy * dy <= 0x4000_0000_0000_0000_0000_0000_0000_0000) by (nonlinear_arith)
            requires
                -0x8000_0000_0000_0000 <= dy <= 0x8000_0000_0000_0000,
        ;
        let square: u128 = (dx * dx) as u128 + (dy * dy) as u128;
        let len: i128 = isqrt(square) as i128;
        proof {
            lemma_side_within_length(dx as int, dy as int, len as int);
        }
        let ox = extension_along(dx, len, extension);
        let oy = extension_along(dy, len, extension);
        VelloLine {
            p0: Point {
                x: Fixed { raw: saturate_i128(self.p0.x.raw as i128 - ox) },
                y: Fixed { raw: saturate_i128(self.p0.y.raw as i128 - oy) },
            },
            p1: Point {
                x: Fixed { raw: saturate_i128(self.p1.x.raw as i128 + ox) },
                y: Fixed { raw: saturate_i128(self.p1.y.raw as i128 + oy) },
            },
        }
    }
}

/// The extension times the share that `d` has of the length `len`.
fn extension_along(d: i128, len: i128, extension: Fixed) -> (r: i128)
    requires
        0 <= len < 0x1_0000_0000_0000_0000,
        -len <= d <= len,
    ensures
        r == scale_raw(extension.raw as int, ratio_raw(d as int, len as int)),
        -0x8000_0000_0000_0000 <= r <= 0x8000_0000_0000_0000,
{
    if len == 0 {
        return 0;
    }
    assert(-len * ONE_RAW <= d * ONE_RAW <= len * ONE_RAW) by (nonlinear_arith)
        requires
            -len <= d <= len,
    ;
    assert(len * ONE_RAW < 0x1_0000_0000_0000_0000_0000_0000) by (nonlinear_arith)
        requires
            0 <= len < 0x1_0000_0000_0000_0000,
    ;
    let share: i128 = floor_div(d * (ONE_RAW as i128), len);
    assert(-ONE_RAW <= share <= ONE_RAW) by (nonlinear_arith)
        requires
            share == (d * ONE_RAW) / (len as int),
            -len * ONE_RAW <= d * ONE_RAW <= len * ONE_RAW,
            len > 0,
    ;
    let r = scale_wide(extension.raw as i128, share);
    assert(-0x8000_0000_0000_0000 <= r <= 0x8000_0000_0000_0000) by (nonlinear_arith)
        requires
            r == (extension.raw * share) / (ONE_RAW as int),
            -0x8000_0000_0000_0000 <= extension.raw <= 0x8000_0000_0000_0000,
            -ONE_RAW <= share <= ONE_RAW,
            ONE_RAW == 0x1_0000_0000,
    ;
    r
}

impl Default for VelloLine {
    /// The line that starts and ends at the origin.
    fn default() -> (r: VelloLine)
        ensures
            r == (VelloLine { p0: origin(), p1: origin() }),
    {
        VelloLine { p0: Point::zero(), p1: Point::zero() }
    }
}

impl Vector for VelloLine {
    /// The point between the two ends at `time`, clamped to the unit
    /// interval.
    open spec fn border_point(&self, time: Fixed) -> Point {
        lerp_point(self.p0, self.p1, Fixed { raw: clamp_unit_raw(time.raw as int) as i64 })
    }

    /// The direction from the start to the end, whatever the time.
    open spec fn border_tangent(&self, time: Fixed) -> Rotation {
        Rotation::Along(direction_between(self.p0, self.p1))
    }

    fn shape(&self) -> (r: Shape)
        ensures
            r == (Shape::Line { p0: self.p0, p1: self.p1 }),
    {
        Shape::Line { p0: self.p0, p1: self.p1 }
    }

    fn border_translation(&self, time: Fixed) -> (r: Point) {
        self.p0.lerp(self.p1, time.clamp_unit())
    }

    fn border_rotation(&self, _time: Fixed) -> (r: Rotation) {
        Rotation::Along(self.p0.direction_to(self.p1))
    }
}

} // verus!
