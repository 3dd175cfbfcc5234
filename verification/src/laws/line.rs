//! Laws of a line: its border, and its extension.

use vstd::prelude::*;
use crate::bezpath::{PathEl, position_at, tangent_at};
use crate::fixed::{
    Fixed, ONE_RAW, is_sqrt_floor, lemma_scale_bounds, lemma_sqrt_floor_unique, saturate,
};
use crate::line::{VelloLine, extended};
use crate::point::Point;
use crate::vector::Vector;

verus! {

/// The border of a line is the border of the path that moves to its start
/// and draws a line to its end: at every time the two are at the same
/// position and have the same tangent.
pub proof fn law_line_border_is_path_border(line: VelloLine, time: Fixed)
    ensures
        line.border_point(time) == position_at(
            seq![PathEl::MoveTo(line.p0), PathEl::LineTo(line.p1)],
            time,
        ),
        line.border_tangent(time) == tangent_at(
            seq![PathEl::MoveTo(line.p0), PathEl::LineTo(line.p1)],
            time,
        ),
{
    let els = seq![PathEl::MoveTo(line.p0), PathEl::LineTo(line.p1)];
    assert(els.len() == 2);
}

/// An extension of zero leaves a line as it is.
pub proof fn law_extend_by_nothing(line: VelloLine)
    ensures
        extended(line, Fixed { raw: 0 }) == line,
{
}

/// A line of no length has no direction: no extension moves it.
pub proof fn law_extend_of_a_point(at: Point, extension: Fixed)
    ensures
        extended(VelloLine { p0: at, p1: at }, extension) == (VelloLine { p0: at, p1: at }),
{
    let zero = 0int;
    assert(is_sqrt_floor(zero * zero + zero * zero, zero)) by (nonlinear_arith)
        requires
            zero == 0,
    ;
    lemma_sqrt_floor_unique(zero * zero + zero * zero, zero);
}

/// A level line that runs to the right is extended by the whole extension
/// along `x`, and not at all along `y`: the rounding loses nothing.
pub proof fn law_extend_level_line(line: VelloLine, extension: Fixed)
    requires
        line.p0.y == line.p1.y,
        line.p0.x.raw < line.p1.x.raw,
    ensures
        extended(line, extension).p0.x.raw == saturate(line.p0.x.raw - extension.raw),
        extended(line, extension).p1.x.raw == saturate(line.p1.x.raw + extension.raw),
        extended(line, extension).p0.y == line.p0.y,
        extended(line, extension).p1.y == line.p1.y,
{
    let one = ONE_RAW as int;
    let dx = saturate(line.p1.x.raw - line.p0.x.raw);
    let zero = 0int;
    assert(is_sqrt_floor(dx * dx + zero * zero, dx)) by (nonlinear_arith)
        requires
            dx > 0,
            zero == 0,
    ;
    lemma_sqrt_floor_unique(dx * dx + zero * zero, dx);
    assert((dx * one) / dx == one) by (nonlinear_arith)
        requires
            dx > 0,
    ;
    assert((zero * one) / dx == 0) by (nonlinear_arith)
        requires
            dx > 0,
            zero == 0,
    ;
    lemma_scale_bounds(extension.raw as int, one);
}

} // verus!
