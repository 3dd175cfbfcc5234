//! Laws of a single segment: where it starts and ends, the box that it stays
//! in, and how fast it moves.

use vstd::prelude::*;
use crate::bezpath::{PathSeg, seg_direction, seg_point};
use crate::fixed::{Fixed, ONE_RAW, lemma_scale_bounds, lerp_raw};
use crate::laws::lerp::{
    cubic_raw, lemma_cubic_step, lemma_lerp_step_within, lemma_quad_step, quad_raw,
};
use crate::point::{Point, direction_between, lerp_point};

verus! {

/// The point at which a segment starts.
pub open spec fn seg_start(seg: PathSeg) -> Point {
    match seg {
        PathSeg::Line { p0, .. } => p0,
        PathSeg::Quad { p0, .. } => p0,
        PathSeg::Cubic { p0, .. } => p0,
    }
}

/// The point at which a segment ends.
pub open spec fn seg_end(seg: PathSeg) -> Point {
    match seg {
        PathSeg::Line { p1, .. } => p1,
        PathSeg::Quad { p2, .. } => p2,
        PathSeg::Cubic { p3, .. } => p3,
    }
}

/// A segment is at its start point at the local parameter zero and at its end
/// point at the local parameter one.
pub proof fn law_segment_ends(seg: PathSeg)
    ensures
        seg_point(seg, Fixed { raw: 0 }) == seg_start(seg),
        seg_point(seg, Fixed { raw: ONE_RAW }) == seg_end(seg),
{
}

/// The control point that follows the start of a segment: on a line, its
/// end.
pub open spec fn first_control(seg: PathSeg) -> Point {
    match seg {
        PathSeg::Line { p1, .. } => p1,
        PathSeg::Quad { p1, .. } => p1,
        PathSeg::Cubic { p1, .. } => p1,
    }
}

/// The control point that comes before the end of a segment: on a line, its
/// start.
pub open spec fn last_control(seg: PathSeg) -> Point {
    match seg {
        PathSeg::Line { p0, .. } => p0,
        PathSeg::Quad { p1, .. } => p1,
        PathSeg::Cubic { p2, .. } => p2,
    }
}

/// A segment leaves its start towards its first control point and arrives at
/// its end from its last.
pub proof fn law_segment_end_directions(seg: PathSeg)
    ensures
        seg_direction(seg, Fixed { raw: 0 }) == direction_between(seg_start(seg), first_control(seg)),
        seg_direction(seg, Fixed { raw: ONE_RAW }) == direction_between(
            last_control(seg),
            seg_end(seg),
        ),
{
}

/// The point with the lesser of the two `x` and the lesser of the two `y`.
pub open spec fn least(a: Point, b: Point) -> Point {
    Point {
        x: if a.x.raw <= b.x.raw { a.x } else { b.x },
        y: if a.y.raw <= b.y.raw { a.y } else { b.y },
    }
}

/// The point with the greater of the two `x` and the greater of the two `y`.
pub open spec fn greatest(a: Point, b: Point) -> Point {
    Point {
        x: if a.x.raw >= b.x.raw { a.x } else { b.x },
        y: if a.y.raw >= b.y.raw { a.y } else { b.y },
    }
}

/// True when `p` lies in the box between the corners `low` and `high`.
pub open spec fn in_box(p: Point, low: Point, high: Point) -> bool {
    &&& low.x.raw <= p.x.raw <= high.x.raw
    &&& low.y.raw <= p.y.raw <= high.y.raw
}

/// How far apart two points are along the axis on which they are further
/// apart, in raw units.
pub open spec fn axis_distance(a: Point, b: Point) -> int {
    let dx = if a.x.raw >= b.x.raw { a.x.raw - b.x.raw } else { b.x.raw - a.x.raw };
    let dy = if a.y.raw >= b.y.raw { a.y.raw - b.y.raw } else { b.y.raw - a.y.raw };
    if dx >= dy {
        dx
    } else {
        dy
    }
}

/// The least corner of the box around the control points of a segment.
pub open spec fn box_low(seg: PathSeg) -> Point {
    match seg {
        PathSeg::Line { p0, p1 } => least(p0, p1),
        PathSeg::Quad { p0, p1, p2 } => least(least(p0, p1), p2),
        PathSeg::Cubic { p0, p1, p2, p3 } => least(least(p0, p1), least(p2, p3)),
    }
}

/// The greatest corner of the box around the control points of a segment.
pub open spec fn box_high(seg: PathSeg) -> Point {
    match seg {
        PathSeg::Line { p0, p1 } => greatest(p0, p1),
        PathSeg::Quad { p0, p1, p2 } => greatest(greatest(p0, p1), p2),
        PathSeg::Cubic { p0, p1, p2, p3 } => greatest(greatest(p0, p1), greatest(p2, p3)),
    }
}

/// The greater side of the box around the control points of a segment, in raw
/// units.
pub open spec fn box_extent(seg: PathSeg) -> int {
    axis_distance(box_low(seg), box_high(seg))
}

/// The interpolation between two points lies in the box that they span.
pub proof fn lemma_lerp_point_in_box(a: Point, b: Point, t: Fixed)
    requires
        t.in_unit(),
    ensures
        in_box(lerp_point(a, b, t), least(a, b), greatest(a, b)),
{
    lemma_scale_bounds(b.x.raw - a.x.raw, t.raw as int);
    lemma_scale_bounds(b.y.raw - a.y.raw, t.raw as int);
}

/// Every point of a segment lies in the box around its control points.
pub proof fn law_segment_in_box(seg: PathSeg, t: Fixed)
    requires
        t.in_unit(),
    ensures
        in_box(seg_point(seg, t), box_low(seg), box_high(seg)),
{
    match seg {
        PathSeg::Line { p0, p1 } => {
            lemma_lerp_point_in_box(p0, p1, t);
        },
        PathSeg::Quad { p0, p1, p2 } => {
            let x0 = lerp_point(p0, p1, t);
            let x1 = lerp_point(p1, p2, t);
            lemma_lerp_point_in_box(p0, p1, t);
            lemma_lerp_point_in_box(p1, p2, t);
            lemma_lerp_point_in_box(x0, x1, t);
        },
        PathSeg::Cubic { p0, p1, p2, p3 } => {
            let x0 = lerp_point(p0, p1, t);
            let x1 = lerp_point(p1, p2, t);
            let x2 = lerp_point(p2, p3, t);
            let y0 = lerp_point(x0, x1, t);
            let y1 = lerp_point(x1, x2, t);
            lemma_lerp_point_in_box(p0, p1, t);
            lemma_lerp_point_in_box(p1, p2, t);
            lemma_lerp_point_in_box(p2, p3, t);
            lemma_lerp_point_in_box(x0, x1, t);
            lemma_lerp_point_in_box(x1, x2, t);
            lemma_lerp_point_in_box(y0, y1, t);
        },
    }
}

/// The greater of two numbers.
pub open spec fn greater(a: int, b: int) -> int {
    if a >= b {
        a
    } else {
        b
    }
}

/// The greatest step between two control points of a segment that follow
/// each other, along either axis, in raw units.
pub open spec fn control_step(seg: PathSeg) -> int {
    match seg {
        PathSeg::Line { p0, p1 } => axis_distance(p0, p1),
        PathSeg::Quad { p0, p1, p2 } => greater(axis_distance(p0, p1), axis_distance(p1, p2)),
        PathSeg::Cubic { p0, p1, p2, p3 } => greater(
            greater(axis_distance(p0, p1), axis_distance(p1, p2)),
            axis_distance(p2, p3),
        ),
    }
}

/// How many control steps a segment can move while its local parameter runs
/// from zero to one: one on a line, three on a quadratic, seven on a cubic
/// curve.
pub open spec fn speed_factor(seg: PathSeg) -> int {
    match seg {
        PathSeg::Line { .. } => 1,
        PathSeg::Quad { .. } => 3,
        PathSeg::Cubic { .. } => 7,
    }
}

/// How many raw units the rounding can add to a move on a segment: one for
/// each level of interpolation.
pub open spec fn rounding_slack(seg: PathSeg) -> int {
    match seg {
        PathSeg::Line { .. } => 1,
        PathSeg::Quad { .. } => 2,
        PathSeg::Cubic { .. } => 3,
    }
}

/// The coordinates of an interpolated point are the interpolated raw
/// coordinates.
pub proof fn lemma_lerp_point_raw(a: Point, b: Point, t: Fixed)
    requires
        t.in_unit(),
    ensures
        lerp_point(a, b, t).x.raw == lerp_raw(a.x.raw as int, b.x.raw as int, t.raw as int),
        lerp_point(a, b, t).y.raw == lerp_raw(a.y.raw as int, b.y.raw as int, t.raw as int),
{
    lemma_scale_bounds(b.x.raw - a.x.raw, t.raw as int);
    lemma_scale_bounds(b.y.raw - a.y.raw, t.raw as int);
}

/// The coordinates of a segment's point are the curve's value along each
/// axis.
pub proof fn lemma_seg_point_raw(seg: PathSeg, t: Fixed)
    requires
        t.in_unit(),
    ensures
        seg matches PathSeg::Line { p0, p1 } ==> {
            &&& seg_point(seg, t).x.raw == lerp_raw(p0.x.raw as int, p1.x.raw as int, t.raw as int)
            &&& seg_point(seg, t).y.raw == lerp_raw(p0.y.raw as int, p1.y.raw as int, t.raw as int)
        },
        seg matches PathSeg::Quad { p0, p1, p2 } ==> {
            &&& seg_point(seg, t).x.raw == quad_raw(
                p0.x.raw as int,
                p1.x.raw as int,
                p2.x.raw as int,
                t.raw as int,
            )
            &&& seg_point(seg, t).y.raw == quad_raw(
                p0.y.raw as int,
                p1.y.raw as int,
                p2.y.raw as int,
                t.raw as int,
            )
        },
        seg matches PathSeg::Cubic { p0, p1, p2, p3 } ==> {
            &&& seg_point(seg, t).x.raw == cubic_raw(
                p0.x.raw as int,
                p1.x.raw as int,
                p2.x.raw as int,
                p3.x.raw as int,
                t.raw as int,
            )
            &&& seg_point(seg, t).y.raw == cubic_raw(
                p0.y.raw as int,
                p1.y.raw as int,
                p2.y.raw as int,
                p3.y.raw as int,
                t.raw as int,
            )
        },
{
    match seg {
        PathSeg::Line { p0, p1 } => {
            lemma_lerp_point_raw(p0, p1, t);
        },
        PathSeg::Quad { p0, p1, p2 } => {
            let x0 = lerp_point(p0, p1, t);
            let x1 = lerp_point(p1, p2, t);
            lemma_lerp_point_raw(p0, p1, t);
            lemma_lerp_point_raw(p1, p2, t);
            lemma_lerp_point_raw(x0, x1, t);
        },
        PathSeg::Cubic { p0, p1, p2, p3 } => {
            let x0 = lerp_point(p0, p1, t);
            let x1 = lerp_point(p1, p2, t);
            let x2 = lerp_point(p2, p3, t);
            let y0 = lerp_point(x0, x1, t);
            let y1 = lerp_point(x1, x2, t);
            lemma_lerp_point_raw(p0, p1, t);
            lemma_lerp_point_raw(p1, p2, t);
            lemma_lerp_point_raw(p2, p3, t);
            lemma_lerp_point_raw(x0, x1, t);
            lemma_lerp_point_raw(x1, x2, t);
            lemma_lerp_point_raw(y0, y1, t);
        },
    }
}

/// A segment moves no faster than its local parameter: between two
/// parameters its point moves, along either axis, by no more than the share
/// of its speed that the parameter has passed, and a few raw units for the
/// rounding. The closer two samples are taken, the closer they lie.
pub proof fn law_segment_speed(seg: PathSeg, t0: Fixed, t1: Fixed)
    requires
        0 <= t0.raw <= t1.raw <= ONE_RAW,
    ensures
        axis_distance(seg_point(seg, t0), seg_point(seg, t1)) * ONE_RAW <= speed_factor(seg)
            * control_step(seg) * (t1.raw - t0.raw) + rounding_slack(seg) * ONE_RAW,
{
    let d = control_step(seg);
    let a = t0.raw as int;
    let b = t1.raw as int;
    lemma_seg_point_raw(seg, t0);
    lemma_seg_point_raw(seg, t1);
    match seg {
        PathSeg::Line { p0, p1 } => {
            lemma_lerp_step_within(p0.x.raw as int, p1.x.raw as int, a, b, d);
            lemma_lerp_step_within(p0.y.raw as int, p1.y.raw as int, a, b, d);
        },
        PathSeg::Quad { p0, p1, p2 } => {
            lemma_quad_step(p0.x.raw as int, p1.x.raw as int, p2.x.raw as int, a, b, d);
            lemma_quad_step(p0.y.raw as int, p1.y.raw as int, p2.y.raw as int, a, b, d);
        },
        PathSeg::Cubic { p0, p1, p2, p3 } => {
            lemma_cubic_step(
                p0.x.raw as int,
                p1.x.raw as int,
                p2.x.raw as int,
                p3.x.raw as int,
                a,
                b,
                d,
            );
            lemma_cubic_step(
                p0.y.raw as int,
                p1.y.raw as int,
                p2.y.raw as int,
                p3.y.raw as int,
                a,
                b,
                d,
            );
        },
    }
}

} // verus!
