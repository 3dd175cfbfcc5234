//! Laws of the trace of a path.

use vstd::prelude::*;
use crate::bezpath::{
    PathEl, end_point, seg_at, seg_point, trace_interp, trace_len, trace_path, traced_el,
};
use crate::fixed::{Fixed, ONE_RAW, clamp_unit_raw};
use crate::laws::segment::{
    axis_distance, control_step, law_segment_ends, law_segment_speed, rounding_slack,
    speed_factor,
};

verus! {

/// A trace in the unit interval reaches no more elements than the path has,
/// and exactly those whose index is below `t * count`.
pub proof fn lemma_trace_len_bounds(count: int, t: int)
    requires
        count >= 0,
        0 <= t <= ONE_RAW,
    ensures
        0 <= trace_len(count, t) <= count,
        (trace_len(count, t) - 1) * ONE_RAW < t * count <= trace_len(count, t) * ONE_RAW,
{
    let one = ONE_RAW as int;
    let p = t * count;
    assert(0 <= p <= one * count) by (nonlinear_arith)
        requires
            p == t * count,
            0 <= t <= one,
            count >= 0,
    ;
    let n = (p + (one - 1)) / one;
    assert(n * one <= p + (one - 1) < n * one + one) by (nonlinear_arith)
        requires
            n == (p + (one - 1)) / one,
            one > 0,
    ;
    assert(n <= count) by (nonlinear_arith)
        requires
            n * one <= p + (one - 1),
            p <= one * count,
            one > 0,
    ;
    assert(n >= 0) by (nonlinear_arith)
        requires
            p + (one - 1) < n * one + one,
            p >= 0,
            one > 0,
    ;
}

/// The trace and the border follow the same rule. Where an element draws a
/// segment and the trace reaches it, what the trace leaves of the element
/// ends on that segment, at the part that the trace covers; only an element
/// that closes the path, covered whole, names no end.
pub proof fn law_trace_ends_on_segment(els: Seq<PathEl>, trace: Fixed, ix: int)
    requires
        0 <= ix < trace_path(els, trace).len(),
        seg_at(els, ix) is Some,
    ensures
        ({
            let t = clamp_unit_raw(trace.raw as int);
            let part = Fixed { raw: trace_interp(els.len() as int, t, ix) as i64 };
            &&& 0 < part.raw <= ONE_RAW
            &&& !(els[ix] is ClosePath && part.raw == ONE_RAW) ==> end_point(
                trace_path(els, trace)[ix],
            ) == Some(seg_point(seg_at(els, ix).unwrap(), part))
        }),
{
    let t = clamp_unit_raw(trace.raw as int);
    let count = els.len() as int;
    assert(ix * ONE_RAW <= (trace_len(count, t) - 1) * ONE_RAW) by (nonlinear_arith)
        requires
            ix <= trace_len(count, t) - 1,
    ;
    law_segment_ends(seg_at(els, ix).unwrap());
}

/// The part of element `ix` that a trace covers, as a local parameter.
pub open spec fn covered_part(els: Seq<PathEl>, trace: Fixed, ix: int) -> Fixed {
    Fixed { raw: trace_interp(els.len() as int, clamp_unit_raw(trace.raw as int), ix) as i64 }
}

/// A trace grows steadily. While two traces end on the same element, the
/// longer ends no further from the shorter, along either axis, than the share
/// of the segment's speed by which the trace has grown, and a few raw units
/// for the rounding: nothing of the drawing jumps as the trace grows.
pub proof fn law_trace_grows_steadily(els: Seq<PathEl>, shorter: Fixed, longer: Fixed, ix: int)
    requires
        shorter.raw <= longer.raw,
        trace_path(els, shorter).len() == ix + 1,
        trace_path(els, longer).len() == ix + 1,
        seg_at(els, ix) is Some,
    ensures
        ({
            let seg = seg_at(els, ix).unwrap();
            let grown = clamp_unit_raw(longer.raw as int) - clamp_unit_raw(shorter.raw as int);
            axis_distance(
                seg_point(seg, covered_part(els, shorter, ix)),
                seg_point(seg, covered_part(els, longer, ix)),
            ) * ONE_RAW <= speed_factor(seg) * control_step(seg) * (els.len() * grown)
                + rounding_slack(seg) * ONE_RAW
        }),
{
    let count = els.len() as int;
    let s = clamp_unit_raw(shorter.raw as int);
    let l = clamp_unit_raw(longer.raw as int);
    let seg = seg_at(els, ix).unwrap();
    let a = covered_part(els, shorter, ix);
    let b = covered_part(els, longer, ix);
    assert(s * count <= l * count) by (nonlinear_arith)
        requires
            s <= l,
            count >= 0,
    ;
    assert(count * (l - s) == l * count - s * count) by (nonlinear_arith);
    law_segment_speed(seg, a, b);
}

/// A trace of one, or more, leaves the whole path.
pub proof fn law_trace_full(els: Seq<PathEl>, trace: Fixed)
    requires
        trace.raw >= ONE_RAW,
    ensures
        trace_path(els, trace) == els,
{
    let one = ONE_RAW as int;
    let count = els.len() as int;
    assert((one * count + (one - 1)) / one == count) by (nonlinear_arith)
        requires
            one > 0,
    ;
    assert forall|ix: int| 0 <= ix < count implies #[trigger] traced_el(els, one, ix) == els[ix] by {
        assert(one * count - ix * one >= one) by (nonlinear_arith)
            requires
                0 <= ix < count,
                one > 0,
        ;
    }
}

/// A longer trace leaves no less of a path than a shorter one, and the two
/// agree with the path itself on every element but the last that the shorter
/// trace leaves: only that one may be cut off.
pub proof fn law_trace_prefix(els: Seq<PathEl>, shorter: Fixed, longer: Fixed)
    requires
        shorter.raw <= longer.raw,
    ensures
        trace_path(els, shorter).len() <= trace_path(els, longer).len() <= els.len(),
        forall|ix: int|
            0 <= ix < trace_path(els, shorter).len() - 1 ==> {
                &&& #[trigger] trace_path(els, shorter)[ix] == els[ix]
                &&& trace_path(els, longer)[ix] == els[ix]
            },
{
    let count = els.len() as int;
    let s = clamp_unit_raw(shorter.raw as int);
    let l = clamp_unit_raw(longer.raw as int);
    lemma_trace_len_bounds(count, l);
    assert(s * count <= l * count) by (nonlinear_arith)
        requires
            s <= l,
            count >= 0,
    ;
    assert forall|ix: int| 0 <= ix < trace_path(els, shorter).len() - 1 implies {
        &&& #[trigger] trace_path(els, shorter)[ix] == els[ix]
        &&& trace_path(els, longer)[ix] == els[ix]
    } by {
    }
}

} // verus!
