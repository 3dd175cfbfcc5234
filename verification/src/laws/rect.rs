//! Laws of the border of a rectangle.

use vstd::prelude::*;
use crate::bezpath::{PathEl, position_at, subpath_start};
use crate::fixed::{Fixed, ONE_RAW};
use crate::laws::border::lemma_segment_located;
use crate::laws::segment::{greatest, in_box, least, lemma_lerp_point_in_box};
use crate::point::{Rotation, lemma_lerp_point_ends};
use crate::rect::{HALF_RAW, QUARTER_RAW, THREE_QUARTERS_RAW, VelloRect, rect_local};
use crate::vector::Vector;

verus! {

/// The border of a rectangle passes its four corners at the quarters of the
/// time, one after the other; where the rectangle has a width and a height,
/// the four are different points.
pub proof fn law_rect_corners(rect: VelloRect)
    ensures
        rect.border_point(Fixed { raw: 0 }) == rect.bottom_left(),
        rect.border_point(Fixed { raw: QUARTER_RAW }) == rect.bottom_right(),
        rect.border_point(Fixed { raw: HALF_RAW }) == rect.top_right(),
        rect.border_point(Fixed { raw: THREE_QUARTERS_RAW }) == rect.top_left(),
        rect.left() != rect.right() && rect.top() != rect.bottom() ==> {
            &&& rect.bottom_left() != rect.bottom_right()
            &&& rect.bottom_left() != rect.top_right()
            &&& rect.bottom_left() != rect.top_left()
            &&& rect.bottom_right() != rect.top_right()
            &&& rect.bottom_right() != rect.top_left()
            &&& rect.top_right() != rect.top_left()
        },
{
    lemma_lerp_point_ends(rect.bottom_left(), rect.bottom_right());
    lemma_lerp_point_ends(rect.bottom_right(), rect.top_right());
    lemma_lerp_point_ends(rect.top_right(), rect.top_left());
}

/// The closed path through the four corners of a rectangle, in the order in
/// which its border passes them.
pub open spec fn corner_path(rect: VelloRect) -> Seq<PathEl> {
    seq![
        PathEl::MoveTo(rect.bottom_left()),
        PathEl::LineTo(rect.bottom_right()),
        PathEl::LineTo(rect.top_right()),
        PathEl::LineTo(rect.top_left()),
        PathEl::ClosePath,
    ]
}

/// The border of a rectangle is the border of the path through its corners:
/// at every time of the unit interval the two are at the same position.
pub proof fn law_rect_border_is_path_border(rect: VelloRect, time: Fixed)
    requires
        time.in_unit(),
    ensures
        rect.border_point(time) == position_at(corner_path(rect), time),
{
    let one = ONE_RAW as int;
    let t = time.raw as int;
    let els = corner_path(rect);
    assert(subpath_start(els, 1) == Some(rect.bottom_left()));
    assert(subpath_start(els, 2) == Some(rect.bottom_left()));
    assert(subpath_start(els, 3) == Some(rect.bottom_left()));
    lemma_segment_located(4, t);
    if t == one {
        lemma_lerp_point_ends(rect.bottom_left(), rect.bottom_right());
    }
}

/// The tangent of a rectangle's border is one of four rotations, whatever the
/// time: no turn, a quarter, a half, or three quarters of a turn.
pub proof fn law_rect_tangent_is_quarter_turn(rect: VelloRect, time: Fixed)
    ensures
        rect.border_tangent(time) == Rotation::Turns(Fixed { raw: 0 }) || rect.border_tangent(time)
            == Rotation::Turns(Fixed { raw: QUARTER_RAW }) || rect.border_tangent(time)
            == Rotation::Turns(Fixed { raw: HALF_RAW }) || rect.border_tangent(time)
            == Rotation::Turns(Fixed { raw: THREE_QUARTERS_RAW }),
{
}

/// The border of a rectangle is closed: times that differ by a whole number
/// give the same position and the same tangent.
pub proof fn law_rect_wraps(rect: VelloRect, time: Fixed, later: Fixed, turns: int)
    requires
        later.raw == time.raw + turns * ONE_RAW,
    ensures
        rect.border_point(later) == rect.border_point(time),
        rect.border_tangent(later) == rect.border_tangent(time),
{
    let one = ONE_RAW as int;
    assert(one * turns + time.raw == later.raw) by (nonlinear_arith)
        requires
            later.raw == time.raw + turns * one,
    ;
}

/// Every position on the border of a rectangle lies on one of its four
/// sides, between the two sides across.
pub proof fn law_rect_border_on_sides(rect: VelloRect, time: Fixed)
    ensures
        ({
            let p = rect.border_point(time);
            &&& p.x == rect.left() || p.x == rect.right() || p.y == rect.top() || p.y
                == rect.bottom()
            &&& in_box(
                p,
                least(rect.bottom_left(), rect.top_right()),
                greatest(rect.bottom_left(), rect.top_right()),
            )
        }),
{
    let t = Fixed { raw: rect_local(time.raw as int) as i64 };
    lemma_lerp_point_in_box(rect.bottom_left(), rect.bottom_right(), t);
    lemma_lerp_point_in_box(rect.bottom_right(), rect.top_right(), t);
    lemma_lerp_point_in_box(rect.top_right(), rect.top_left(), t);
    lemma_lerp_point_in_box(rect.top_left(), rect.bottom_left(), t);
}

} // verus!
