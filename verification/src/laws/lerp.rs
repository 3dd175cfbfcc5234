//! Laws of the interpolation between two raw values, and of the two curves
//! that are built from it, along one axis.

use vstd::prelude::*;
use crate::fixed::{ONE_RAW, lemma_scale_bounds, lerp_raw};

verus! {

/// The distance between two raw values.
pub open spec fn gap(a: int, b: int) -> int {
    if a >= b {
        a - b
    } else {
        b - a
    }
}

/// Interpolation between two raw values moves with `t` and never against
/// it: from a lesser to a greater value it does not fall, from a greater to a
/// lesser value it does not rise.
pub proof fn law_lerp_monotonic(a: int, b: int, t0: int, t1: int)
    requires
        0 <= t0 <= t1 <= ONE_RAW,
    ensures
        a <= b ==> lerp_raw(a, b, t0) <= lerp_raw(a, b, t1),
        a >= b ==> lerp_raw(a, b, t0) >= lerp_raw(a, b, t1),
{
    let one = ONE_RAW as int;
    let d = b - a;
    if d >= 0 {
        assert(d * t0 <= d * t1) by (nonlinear_arith)
            requires
                d >= 0,
                t0 <= t1,
        ;
        assert((d * t0) / one <= (d * t1) / one) by (nonlinear_arith)
            requires
                d * t0 <= d * t1,
                one > 0,
        ;
    }
    if d <= 0 {
        assert(d * t0 >= d * t1) by (nonlinear_arith)
            requires
                d <= 0,
                t0 <= t1,
        ;
        assert((d * t0) / one >= (d * t1) / one) by (nonlinear_arith)
            requires
                d * t0 >= d * t1,
                one > 0,
        ;
    }
}

/// Interpolation between two raw values moves no faster than `t`: between two
/// times the value changes by no more than the share of the distance from `a`
/// to `b` that the time has passed, and one raw unit for the rounding.
pub proof fn law_lerp_step(a: int, b: int, t0: int, t1: int)
    requires
        0 <= t0 <= t1 <= ONE_RAW,
    ensures
        gap(lerp_raw(a, b, t0), lerp_raw(a, b, t1)) * ONE_RAW <= gap(a, b) * (t1 - t0) + ONE_RAW,
{
    let one = ONE_RAW as int;
    let d = b - a;
    let q0 = (d * t0) / one;
    let q1 = (d * t1) / one;
    assert(q0 * one <= d * t0 < q0 * one + one) by (nonlinear_arith)
        requires
            q0 == (d * t0) / one,
            one > 0,
    ;
    assert(q1 * one <= d * t1 < q1 * one + one) by (nonlinear_arith)
        requires
            q1 == (d * t1) / one,
            one > 0,
    ;
    assert(d * (t1 - t0) == d * t1 - d * t0) by (nonlinear_arith);
    assert((a - b) * (t1 - t0) == d * t0 - d * t1) by (nonlinear_arith)
        requires
            d == b - a,
    ;
}

/// The same, where the distance from `a` to `b` is known to be no more than
/// `d`.
pub proof fn lemma_lerp_step_within(a: int, b: int, t0: int, t1: int, d: int)
    requires
        0 <= t0 <= t1 <= ONE_RAW,
        gap(a, b) <= d,
    ensures
        gap(lerp_raw(a, b, t0), lerp_raw(a, b, t1)) * ONE_RAW <= d * (t1 - t0) + ONE_RAW,
{
    law_lerp_step(a, b, t0, t1);
    assert(gap(a, b) * (t1 - t0) <= d * (t1 - t0)) by (nonlinear_arith)
        requires
            gap(a, b) <= d,
            t1 - t0 >= 0,
    ;
}

/// Interpolation does not spread: where the two ends move by no more than
/// `e`, so does the value between them.
pub proof fn lemma_lerp_close(a: int, b: int, a2: int, b2: int, t: int, e: int)
    requires
        0 <= t <= ONE_RAW,
        gap(a, a2) <= e,
        gap(b, b2) <= e,
    ensures
        gap(lerp_raw(a, b, t), lerp_raw(a2, b2, t)) <= e,
{
    let one = ONE_RAW as int;
    let q = ((b - a) * t) / one;
    let q2 = ((b2 - a2) * t) / one;
    assert(q * one <= (b - a) * t < q * one + one) by (nonlinear_arith)
        requires
            q == ((b - a) * t) / one,
            one > 0,
    ;
    assert(q2 * one <= (b2 - a2) * t < q2 * one + one) by (nonlinear_arith)
        requires
            q2 == ((b2 - a2) * t) / one,
            one > 0,
    ;
    // (lerp2 - lerp) * one < (a2 - a) * (one - t) + (b2 - b) * t + one <= e * one + one
    let da = a2 - a;
    let db = b2 - b;
    assert((b2 - a2) * t - (b - a) * t == db * t - da * t) by (nonlinear_arith)
        requires
            da == a2 - a,
            db == b2 - b,
    ;
    assert(da * one - da * t + db * t <= e * one && da * one - da * t + db * t >= -(e * one))
        by (nonlinear_arith)
        requires
            -e <= da <= e,
            -e <= db <= e,
            0 <= t <= one,
    ;
    assert((a2 + q2 - (a + q)) * one == da * one + q2 * one - q * one) by (nonlinear_arith)
        requires
            da == a2 - a,
    ;
    assert(a2 + q2 - (a + q) <= e) by (nonlinear_arith)
        requires
            (a2 + q2 - (a + q)) * one < e * one + one,
            one > 0,
    ;
    assert(a + q - (a2 + q2) <= e) by (nonlinear_arith)
        requires
            (a2 + q2 - (a + q)) * one > -(e * one) - one,
            one > 0,
    ;
}

/// The interpolation between two raw values is no further from either than
/// they are from each other.
pub proof fn lemma_lerp_between(a: int, b: int, t: int)
    requires
        0 <= t <= ONE_RAW,
    ensures
        gap(lerp_raw(a, b, t), a) <= gap(a, b),
        gap(lerp_raw(a, b, t), b) <= gap(a, b),
{
    lemma_scale_bounds(b - a, t);
}

/// The point of a quadratic curve at `t`, along one axis.
pub open spec fn quad_raw(p0: int, p1: int, p2: int, t: int) -> int {
    lerp_raw(lerp_raw(p0, p1, t), lerp_raw(p1, p2, t), t)
}

/// The point of a cubic curve at `t`, along one axis.
pub open spec fn cubic_raw(p0: int, p1: int, p2: int, p3: int, t: int) -> int {
    lerp_raw(quad_raw(p0, p1, p2, t), quad_raw(p1, p2, p3, t), t)
}

/// A quadratic curve moves no faster than three times the time, measured in
/// the greatest step between its control points, and two raw units for the
/// rounding.
pub proof fn lemma_quad_step(p0: int, p1: int, p2: int, t0: int, t1: int, d: int)
    requires
        0 <= t0 <= t1 <= ONE_RAW,
        gap(p0, p1) <= d,
        gap(p1, p2) <= d,
    ensures
        gap(quad_raw(p0, p1, p2, t0), quad_raw(p0, p1, p2, t1)) * ONE_RAW <= 3 * d * (t1 - t0) + 2
            * ONE_RAW,
        gap(quad_raw(p0, p1, p2, t0), p1) <= d,
{
    let one = ONE_RAW as int;
    let dt = t1 - t0;
    let x0a = lerp_raw(p0, p1, t0);
    let x0b = lerp_raw(p0, p1, t1);
    let x1a = lerp_raw(p1, p2, t0);
    let x1b = lerp_raw(p1, p2, t1);
    lemma_lerp_step_within(p0, p1, t0, t1, d);
    lemma_lerp_step_within(p1, p2, t0, t1, d);
    let e = if gap(x0a, x0b) >= gap(x1a, x1b) {
        gap(x0a, x0b)
    } else {
        gap(x1a, x1b)
    };
    let m = lerp_raw(x0a, x1a, t1);
    lemma_lerp_close(x0a, x1a, x0b, x1b, t1, e);
    lemma_lerp_between(p0, p1, t0);
    lemma_lerp_between(p1, p2, t0);
    lemma_lerp_step_within(x0a, x1a, t0, t1, 2 * d);
    lemma_lerp_between(x0a, x1a, t0);
    let ba = quad_raw(p0, p1, p2, t0);
    let bb = quad_raw(p0, p1, p2, t1);
    assert(gap(ba, bb) * one <= gap(ba, m) * one + e * one) by (nonlinear_arith)
        requires
            gap(ba, bb) <= gap(ba, m) + gap(m, bb),
            gap(m, bb) <= e,
            one > 0,
    ;
    assert(2 * d * dt + d * dt == 3 * d * dt) by (nonlinear_arith);
}

/// A cubic curve moves no faster than seven times the time, measured in the
/// greatest step between its control points, and three raw units for the
/// rounding.
pub proof fn lemma_cubic_step(p0: int, p1: int, p2: int, p3: int, t0: int, t1: int, d: int)
    requires
        0 <= t0 <= t1 <= ONE_RAW,
        gap(p0, p1) <= d,
        gap(p1, p2) <= d,
        gap(p2, p3) <= d,
    ensures
        gap(cubic_raw(p0, p1, p2, p3, t0), cubic_raw(p0, p1, p2, p3, t1)) * ONE_RAW <= 7 * d * (t1
            - t0) + 3 * ONE_RAW,
{
    let one = ONE_RAW as int;
    let dt = t1 - t0;
    let y0a = quad_raw(p0, p1, p2, t0);
    let y0b = quad_raw(p0, p1, p2, t1);
    let y1a = quad_raw(p1, p2, p3, t0);
    let y1b = quad_raw(p1, p2, p3, t1);
    lemma_quad_step(p0, p1, p2, t0, t1, d);
    lemma_quad_step(p1, p2, p3, t0, t1, d);
    let e = if gap(y0a, y0b) >= gap(y1a, y1b) {
        gap(y0a, y0b)
    } else {
        gap(y1a, y1b)
    };
    let m = lerp_raw(y0a, y1a, t1);
    lemma_lerp_close(y0a, y1a, y0b, y1b, t1, e);
    // both points of the second level are within two steps of the first
    // level's middle point
    lemma_lerp_step_within(y0a, y1a, t0, t1, 4 * d);
    let ba = cubic_raw(p0, p1, p2, p3, t0);
    let bb = cubic_raw(p0, p1, p2, p3, t1);
    assert(gap(ba, bb) * one <= gap(ba, m) * one + e * one) by (nonlinear_arith)
        requires
            gap(ba, bb) <= gap(ba, m) + gap(m, bb),
            gap(m, bb) <= e,
            one > 0,
    ;
    assert(4 * d * dt + 3 * d * dt == 7 * d * dt) by (nonlinear_arith);
}

} // verus!
