//! Laws of the border of a path: where it starts and ends, that it has no
//! gaps, and that it does not jump.

use vstd::prelude::*;
use crate::bezpath::{
    PathEl, PathSeg, end_point, fallback_point, position_at, seg_at, seg_index, seg_local,
    seg_point, start_before, subpath_start, well_formed,
};
use crate::fixed::{Fixed, ONE_RAW, clamp_unit_raw};
use crate::laws::segment::{
    axis_distance, box_extent, box_high, box_low, control_step, in_box, law_segment_ends,
    law_segment_in_box, law_segment_speed, rounding_slack, seg_end, seg_start, speed_factor,
};
use crate::point::Point;

verus! {

/// At time zero, and before it, the position on the border of a path is the
/// point of the path's first element.
pub proof fn law_path_starts_at_first_point(els: Seq<PathEl>, time: Fixed, first: Point)
    requires
        els.len() >= 1,
        end_point(els[0]) == Some(first),
        time.raw <= 0,
    ensures
        position_at(els, time) == first,
{
    if els.len() >= 2 {
        match seg_at(els, 1) {
            Some(seg) => {
                law_segment_ends(seg);
            },
            None => {},
        }
    }
}

/// The point at which a path of two or more elements ends: the end point of
/// its last element, and for a closing element the start of its subpath.
pub open spec fn last_point(els: Seq<PathEl>) -> Point {
    match end_point(els[els.len() - 1]) {
        Some(p) => p,
        None => start_before(els, els.len() - 1),
    }
}

/// At time one, and after it, the position on the border of a path is the
/// point at which the path ends, where its last element draws a segment;
/// where it draws none, the position is the point of the path's first
/// element.
pub proof fn law_path_ends_at_last_point(els: Seq<PathEl>, time: Fixed)
    requires
        els.len() >= 2,
        time.raw >= ONE_RAW,
    ensures
        seg_at(els, els.len() - 1) is Some ==> position_at(els, time) == last_point(els),
        seg_at(els, els.len() - 1) is None ==> position_at(els, time) == fallback_point(els),
{
    let count = els.len() - 1;
    let one = ONE_RAW as int;
    assert((one * count) / one == count) by (nonlinear_arith)
        requires
            one > 0,
    ;
    assert(seg_local(count, one) == one) by (nonlinear_arith)
        requires
            seg_local(count, one) == one * count - (count - 1) * one,
    ;
    match seg_at(els, els.len() - 1) {
        Some(seg) => {
            law_segment_ends(seg);
        },
        None => {},
    }
}

/// Every element of a well-formed path but the first draws a segment, and the
/// subpath that a closing element closes starts at the path's first point.
pub proof fn law_well_formed_draws(els: Seq<PathEl>, ix: int)
    requires
        well_formed(els),
        1 <= ix < els.len(),
    ensures
        seg_at(els, ix) is Some,
        subpath_start(els, ix) == end_point(els[0]),
    decreases ix,
{
    if ix > 1 {
        law_well_formed_draws(els, ix - 1);
    }
}

/// The border of a well-formed path of two or more elements starts at the
/// path's first point and ends at its last: at the end point of the last
/// element, or, where the path is closed, back at the first point.
pub proof fn law_well_formed_ends(els: Seq<PathEl>, first: Point)
    requires
        well_formed(els),
        els.len() >= 2,
        els[0] == PathEl::MoveTo(first),
    ensures
        position_at(els, Fixed { raw: 0 }) == first,
        position_at(els, Fixed { raw: ONE_RAW }) == match els[els.len() - 1] {
            PathEl::ClosePath => first,
            last => end_point(last).unwrap(),
        },
{
    law_path_starts_at_first_point(els, Fixed { raw: 0 }, first);
    law_well_formed_draws(els, els.len() - 1);
    law_path_ends_at_last_point(els, Fixed { raw: ONE_RAW });
}

/// Where two elements in a row draw a segment each, the first segment ends
/// where the second starts: the border has no gap between them.
pub proof fn law_segments_join(els: Seq<PathEl>, ix: int)
    requires
        seg_at(els, ix) is Some,
        seg_at(els, ix + 1) is Some,
    ensures
        seg_point(seg_at(els, ix).unwrap(), Fixed { raw: ONE_RAW }) == seg_point(
            seg_at(els, ix + 1).unwrap(),
            Fixed { raw: 0 },
        ),
{
}

/// The segment of a path on which `time` falls, where the path has two or
/// more elements.
pub open spec fn segment_at_time(els: Seq<PathEl>, time: Fixed) -> Option<PathSeg> {
    seg_at(els, seg_index(els.len() - 1, clamp_unit_raw(time.raw as int)) + 1)
}

/// The local parameter of `time` on its segment is in the unit interval, and
/// the segment's index is one of the path's.
pub proof fn lemma_segment_located(count: int, t: int)
    requires
        count >= 1,
        0 <= t <= ONE_RAW,
    ensures
        0 <= seg_index(count, t) < count,
        0 <= seg_local(count, t) <= ONE_RAW,
{
    let one = ONE_RAW as int;
    let p = t * count;
    assert(0 <= p <= one * count) by (nonlinear_arith)
        requires
            p == t * count,
            0 <= t <= one,
            count >= 1,
    ;
    let i = p / one;
    assert(i * one <= p < i * one + one && 0 <= i <= count) by (nonlinear_arith)
        requires
            i == p / one,
            0 <= p <= one * count,
            one > 0,
    ;
    if i > count - 1 {
        assert(i * one == count * one) by (nonlinear_arith)
            requires
                i == count,
        ;
    }
}

/// A later time falls on no earlier segment.
pub proof fn lemma_seg_index_monotonic(count: int, t0: int, t1: int)
    requires
        count >= 1,
        0 <= t0 <= t1 <= ONE_RAW,
    ensures
        seg_index(count, t0) <= seg_index(count, t1),
{
    let one = ONE_RAW as int;
    assert(t0 * count <= t1 * count) by (nonlinear_arith)
        requires
            t0 <= t1,
            count >= 1,
    ;
    assert((t0 * count) / one <= (t1 * count) / one) by (nonlinear_arith)
        requires
            t0 * count <= t1 * count,
            one > 0,
    ;
}

/// The position on the border of a path lies in the box around the control
/// points of the segment on which the time falls.
pub proof fn law_border_in_segment_box(els: Seq<PathEl>, time: Fixed)
    requires
        els.len() >= 2,
        segment_at_time(els, time) is Some,
    ensures
        in_box(
            position_at(els, time),
            box_low(segment_at_time(els, time).unwrap()),
            box_high(segment_at_time(els, time).unwrap()),
        ),
{
    let t = clamp_unit_raw(time.raw as int);
    lemma_segment_located(els.len() - 1, t);
    law_segment_in_box(
        segment_at_time(els, time).unwrap(),
        Fixed { raw: seg_local(els.len() - 1, t) as i64 },
    );
}

/// The border of a path does not jump. Two positions on one segment are no
/// further apart, along either axis, than the box around the segment's
/// control points is wide; two positions on segments that follow each other
/// are no further apart than the two boxes together.
pub proof fn law_border_does_not_jump(els: Seq<PathEl>, earlier: Fixed, later: Fixed)
    requires
        els.len() >= 2,
        earlier.raw <= later.raw,
        segment_at_time(els, earlier) is Some,
        segment_at_time(els, later) is Some,
        seg_index(els.len() - 1, clamp_unit_raw(later.raw as int)) <= seg_index(
            els.len() - 1,
            clamp_unit_raw(earlier.raw as int),
        ) + 1,
    ensures
        seg_index(els.len() - 1, clamp_unit_raw(later.raw as int)) == seg_index(
            els.len() - 1,
            clamp_unit_raw(earlier.raw as int),
        ) ==> axis_distance(position_at(els, earlier), position_at(els, later)) <= box_extent(
            segment_at_time(els, earlier).unwrap(),
        ),
        axis_distance(position_at(els, earlier), position_at(els, later)) <= box_extent(
            segment_at_time(els, earlier).unwrap(),
        ) + box_extent(segment_at_time(els, later).unwrap()),
{
    let count = els.len() - 1;
    let i0 = seg_index(count, clamp_unit_raw(earlier.raw as int));
    let i1 = seg_index(count, clamp_unit_raw(later.raw as int));
    let s0 = segment_at_time(els, earlier).unwrap();
    let s1 = segment_at_time(els, later).unwrap();
    law_border_in_segment_box(els, earlier);
    law_border_in_segment_box(els, later);
    lemma_seg_index_monotonic(
        count,
        clamp_unit_raw(earlier.raw as int),
        clamp_unit_raw(later.raw as int),
    );
    if i1 != i0 {
        law_segments_join(els, i0 + 1);
        law_segment_in_box(s0, Fixed { raw: ONE_RAW });
        law_segment_in_box(s1, Fixed { raw: 0 });
    }
}

/// True when every element from `first` to `last` draws a segment that moves
/// no faster than `speed`.
pub open spec fn segments_within(els: Seq<PathEl>, first: int, last: int, speed: int) -> bool {
    forall|ix: int|
        first <= ix <= last ==> {
            &&& (#[trigger] seg_at(els, ix)) is Some
            &&& speed_factor(seg_at(els, ix).unwrap()) * control_step(seg_at(els, ix).unwrap())
                <= speed
        }
}

/// The ends of two segments of a path are no further apart than the segments
/// between them can move.
pub proof fn lemma_joints_apart(els: Seq<PathEl>, first: int, last: int, speed: int)
    requires
        first <= last,
        segments_within(els, first, last, speed),
    ensures
        axis_distance(seg_end(seg_at(els, first).unwrap()), seg_end(seg_at(els, last).unwrap()))
            * ONE_RAW <= (last - first) * ((speed + 3) * ONE_RAW),
    decreases last - first,
{
    let one = ONE_RAW as int;
    if first < last {
        lemma_joints_apart(els, first, last - 1, speed);
        let seg = seg_at(els, last).unwrap();
        let from = seg_end(seg_at(els, first).unwrap());
        let joint = seg_end(seg_at(els, last - 1).unwrap());
        let to = seg_end(seg);
        law_segment_ends(seg);
        assert(seg_at(els, last - 1) is Some);
        assert(joint == seg_start(seg));
        law_segment_speed(seg, Fixed { raw: 0 }, Fixed { raw: ONE_RAW });
        let f = speed_factor(seg) * control_step(seg);
        assert(f * one + rounding_slack(seg) * one <= (speed + 3) * one) by (nonlinear_arith)
            requires
                f <= speed,
                rounding_slack(seg) <= 3,
                one > 0,
        ;
        assert((last - first) * ((speed + 3) * one) == (last - 1 - first) * ((speed + 3) * one)
            + (speed + 3) * one) by (nonlinear_arith);
        assert(axis_distance(from, to) * one <= axis_distance(from, joint) * one + axis_distance(
            joint,
            to,
        ) * one) by (nonlinear_arith)
            requires
                axis_distance(from, to) <= axis_distance(from, joint) + axis_distance(joint, to),
                one > 0,
        ;
    }
}

/// From a point of a segment to the segment's end is no further than the
/// segment can move in the rest of its local parameter.
pub proof fn lemma_leave_segment(seg: PathSeg, local: Fixed, speed: int)
    requires
        local.in_unit(),
        speed_factor(seg) * control_step(seg) <= speed,
    ensures
        axis_distance(seg_point(seg, local), seg_end(seg)) * ONE_RAW <= speed * (ONE_RAW
            - local.raw) + 3 * ONE_RAW,
{
    let one = ONE_RAW as int;
    law_segment_ends(seg);
    law_segment_speed(seg, local, Fixed { raw: ONE_RAW });
    let f = speed_factor(seg) * control_step(seg);
    assert(f * (one - local.raw) + rounding_slack(seg) * one <= speed * (one - local.raw) + 3
        * one) by (nonlinear_arith)
        requires
            f <= speed,
            one - local.raw >= 0,
            rounding_slack(seg) <= 3,
            one > 0,
    ;
}

/// From a segment's start to a point of the segment is no further than the
/// segment can move in the local parameter of the point.
pub proof fn lemma_enter_segment(seg: PathSeg, local: Fixed, speed: int)
    requires
        local.in_unit(),
        speed_factor(seg) * control_step(seg) <= speed,
    ensures
        axis_distance(seg_start(seg), seg_point(seg, local)) * ONE_RAW <= speed * local.raw + 3
            * ONE_RAW,
{
    let one = ONE_RAW as int;
    law_segment_ends(seg);
    law_segment_speed(seg, Fixed { raw: 0 }, local);
    let f = speed_factor(seg) * control_step(seg);
    assert(f * local.raw + rounding_slack(seg) * one <= speed * local.raw + 3 * one)
        by (nonlinear_arith)
        requires
            f <= speed,
            local.raw >= 0,
            rounding_slack(seg) <= 3,
            one > 0,
    ;
}

/// Three legs of a way add up: the first to the end of a segment, the second
/// over `between` whole segments, the third into the last segment.
proof fn lemma_three_legs(
    whole: int,
    first: int,
    second: int,
    third: int,
    one: int,
    speed: int,
    rest: int,
    between: int,
    into: int,
    passed: int,
)
    by (nonlinear_arith)
    requires
        one > 0,
        between >= 0,
        whole <= first + second + third,
        first * one <= speed * rest + 3 * one,
        second * one <= between * ((speed + 3) * one),
        third * one <= speed * into + 3 * one,
        rest + between * one + into == passed,
    ensures
        whole * one <= speed * passed + 3 * (between + 2) * one,
{
}

/// The border of a path moves no faster than the time. Between two times the
/// position moves, along either axis, by no more than the share of the
/// segments' speed that the time has passed, and three raw units of rounding
/// for each segment that it touches: samples taken closer together lie closer
/// together, across the joints of the path as well.
pub proof fn law_border_speed(els: Seq<PathEl>, earlier: Fixed, later: Fixed, speed: int)
    requires
        els.len() >= 2,
        0 <= earlier.raw <= later.raw <= ONE_RAW,
        segments_within(
            els,
            seg_index(els.len() - 1, earlier.raw as int) + 1,
            seg_index(els.len() - 1, later.raw as int) + 1,
            speed,
        ),
    ensures
        axis_distance(position_at(els, earlier), position_at(els, later)) * ONE_RAW <= speed * ((
        els.len() - 1) * (later.raw - earlier.raw)) + 3 * (seg_index(
            els.len() - 1,
            later.raw as int,
        ) - seg_index(els.len() - 1, earlier.raw as int) + 1) * ONE_RAW,
{
    let one = ONE_RAW as int;
    let count = els.len() - 1;
    let t0 = earlier.raw as int;
    let t1 = later.raw as int;
    let i0 = seg_index(count, t0);
    let i1 = seg_index(count, t1);
    lemma_segment_located(count, t0);
    lemma_segment_located(count, t1);
    lemma_seg_index_monotonic(count, t0, t1);
    assert(seg_at(els, i0 + 1) is Some);
    assert(seg_at(els, i1 + 1) is Some);
    let s0 = seg_at(els, i0 + 1).unwrap();
    let s1 = seg_at(els, i1 + 1).unwrap();
    let l0 = Fixed { raw: seg_local(count, t0) as i64 };
    let l1 = Fixed { raw: seg_local(count, t1) as i64 };
    let p0 = position_at(els, earlier);
    let p1 = position_at(els, later);
    assert(p0 == seg_point(s0, l0));
    assert(p1 == seg_point(s1, l1));
    assert(count * (t1 - t0) == t1 * count - t0 * count) by (nonlinear_arith);
    if i1 == i0 {
        law_segment_speed(s0, l0, l1);
        let f0 = speed_factor(s0) * control_step(s0);
        assert(f0 * (l1.raw - l0.raw) + rounding_slack(s0) * one <= speed * (count * (t1 - t0)) + 3
            * one) by (nonlinear_arith)
            requires
                f0 <= speed,
                l1.raw - l0.raw == count * (t1 - t0),
                l1.raw - l0.raw >= 0,
                rounding_slack(s0) <= 3,
                one > 0,
        ;
    } else {
        assert(seg_at(els, i1) is Some);
        let leave = seg_end(s0);
        let enter = seg_end(seg_at(els, i1).unwrap());
        law_segment_ends(s1);
        assert(enter == seg_start(s1));
        lemma_leave_segment(s0, l0, speed);
        lemma_joints_apart(els, i0 + 1, i1, speed);
        lemma_enter_segment(s1, l1, speed);
        let between = i1 - (i0 + 1);
        assert(between * one == i1 * one - i0 * one - one) by (nonlinear_arith)
            requires
                between == i1 - (i0 + 1),
        ;
        lemma_three_legs(
            axis_distance(p0, p1),
            axis_distance(p0, leave),
            axis_distance(leave, enter),
            axis_distance(enter, p1),
            one,
            speed,
            one - l0.raw,
            between,
            l1.raw as int,
            count * (t1 - t0),
        );
    }
}

} // verus!
