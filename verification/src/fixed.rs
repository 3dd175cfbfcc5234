//! Signed fixed-point scalars with 32 fractional bits.
//!
//! Every length, coordinate, fraction and scale factor of this crate is a
//! [`Fixed`]. The arithmetic is exact integer arithmetic on the raw values;
//! where a product has to be brought back to 32 fractional bits it is rounded
//! down (towards negative infinity), and where a result would leave the range
//! of the raw value it saturates.

use vstd::prelude::*;

verus! {

/// The raw value of the number one.
pub const ONE_RAW: i64 = 4294967296;

/// A fixed-point number. Its value is `raw / 2^32`.
#[derive(Clone, Copy, Debug, PartialEq, Eq, Structural)]
pub struct Fixed {
    pub raw: i64,
}

/// `v` brought into the range of a raw value.
pub open spec fn saturate(v: int) -> int {
    if v < i64::MIN {
        i64::MIN as int
    } else if v > i64::MAX {
        i64::MAX as int
    } else {
        v
    }
}

/// `t` brought into the unit interval: raw values below zero become zero,
/// raw values above one become one.
pub open spec fn clamp_unit_raw(t: int) -> int {
    if t < 0 {
        0
    } else if t > ONE_RAW {
        ONE_RAW as int
    } else {
        t
    }
}

/// The fractional part of `t`, in `[0, 1)`: `t` modulo one, never negative.
pub open spec fn wrap_unit_raw(t: int) -> int {
    t % (ONE_RAW as int)
}

/// The product of the fixed-point numbers with raw values `x` and `t`,
/// rounded down to a raw value.
pub open spec fn scale_raw(x: int, t: int) -> int {
    (x * t) / (ONE_RAW as int)
}

/// Linear interpolation from `a` (at `t` zero) to `b` (at `t` one) on raw
/// values: `a + (b - a) * t`, the product rounded down.
pub open spec fn lerp_raw(a: int, b: int, t: int) -> int {
    a + scale_raw(b - a, t)
}

/// True when `r` is the square root of `n`, rounded down.
pub open spec fn is_sqrt_floor(n: int, r: int) -> bool {
    r >= 0 && r * r <= n < (r + 1) * (r + 1)
}

/// The square root of `n`, rounded down. For a negative `n` it stands for no
/// number in particular.
pub open spec fn sqrt_floor(n: int) -> int {
    choose|r: int| is_sqrt_floor(n, r)
}

/// The quotient of the raw value `d` by the raw length `len`, as a raw value
/// rounded down: a share of one. It is zero where the length is zero.
pub open spec fn ratio_raw(d: int, len: int) -> int {
    if len == 0 {
        0
    } else {
        (d * ONE_RAW) / len
    }
}

/// `p / d`, rounded down, for a `p` of either sign.
pub(crate) fn floor_div(p: i128, d: i128) -> (q: i128)
    requires
        d > 0,
        i128::MIN + d < p,
    ensures
        q == p as int / (d as int),
{
    if p >= 0 {
        p / d
    } else {
        let n: i128 = -p;
        proof {
            lemma_floor_of_negative(n as int, d as int);
            assert(0 <= (n as int + (d as int - 1)) / (d as int) <= n) by (nonlinear_arith)
                requires
                    n >= 1,
                    d > 0,
            ;
        }
        let c: i128 = (n + (d - 1)) / d;
        -c
    }
}

/// The square root of `n`, rounded down, found by halving the interval that
/// holds it.
pub(crate) fn isqrt(n: u128) -> (r: u128)
    ensures
        r == sqrt_floor(n as int),
        is_sqrt_floor(n as int, r as int),
        r < 0x1_0000_0000_0000_0000,
{
    let mut lo: u128 = 0;
    let mut hi: u128 = 0x1_0000_0000_0000_0000;
    assert(0x1_0000_0000_0000_0000int * 0x1_0000_0000_0000_0000int > u128::MAX)
        by (nonlinear_arith);
    while hi - lo > 1
        invariant
            lo < hi <= 0x1_0000_0000_0000_0000,
            lo * lo <= n,
            n < hi * hi,
        decreases hi - lo,
    {
        let mid: u128 = lo + (hi - lo) / 2;
        assert(mid * mid <= 0xffff_ffff_ffff_ffff * 0xffff_ffff_ffff_ffff) by (nonlinear_arith)
            requires
                0 <= mid <= 0xffff_ffff_ffff_ffff,
        ;
        if mid * mid <= n {
            lo = mid;
        } else {
            hi = mid;
        }
    }
    proof {
        lemma_sqrt_floor_unique(n as int, lo as int);
    }
    lo
}

/// A value of 128 bits brought into 64 bits by saturation.
pub(crate) fn saturate_i128(v: i128) -> (r: i64)
    ensures
        r == saturate(v as int),
{
    if v < i64::MIN as i128 {
        i64::MIN
    } else if v > i64::MAX as i128 {
        i64::MAX
    } else {
        v as i64
    }
}

impl Fixed {
    /// True when the number lies in the unit interval, both ends included.
    pub open spec fn in_unit(self) -> bool {
        0 <= self.raw <= ONE_RAW
    }

    /// The number zero.
    pub fn zero() -> (r: Fixed)
        ensures
            r.raw == 0,
    {
        Fixed { raw: 0 }
    }

    /// The number one.
    pub fn one() -> (r: Fixed)
        ensures
            r.raw == ONE_RAW,
    {
        Fixed { raw: ONE_RAW }
    }

    /// The whole number `v`.
    pub fn from_int(v: i32) -> (r: Fixed)
        ensures
            r.raw == v * ONE_RAW,
    {
        Fixed { raw: (v as i64) * ONE_RAW }
    }

    /// The fraction `num / den`, rounded down to 32 fractional bits.
    pub fn from_ratio(num: i32, den: u32) -> (r: Fixed)
        requires
            den > 0,
        ensures
            r.raw == (num * ONE_RAW) / (den as int),
    {
        let p: i128 = ((num as i64) * ONE_RAW) as i128;
        let d: i128 = den as i128;
        proof {
            if p >= 0 {
                assert(0 <= (p as int) / (d as int) <= p) by (nonlinear_arith)
                    requires
                        p >= 0,
                        d > 0,
                ;
            } else {
                lemma_floor_of_negative(-p as int, d as int);
                assert(0 <= (-p as int + (d as int - 1)) / (d as int) <= -p) by (nonlinear_arith)
                    requires
                        -p >= 1,
                        d > 0,
                ;
            }
        }
        Fixed { raw: floor_div(p, d) as i64 }
    }

    /// Tells whether the number lies in the unit interval.
    pub fn is_unit(&self) -> (r: bool)
        ensures
            r == self.in_unit(),
    {
        0 <= self.raw && self.raw <= ONE_RAW
    }

    /// The nearest number of the unit interval.
    pub fn clamp_unit(self) -> (r: Fixed)
        ensures
            r.raw == clamp_unit_raw(self.raw as int),
            r.in_unit(),
    {
        if self.raw < 0 {
            Fixed { raw: 0 }
        } else if self.raw > ONE_RAW {
            Fixed { raw: ONE_RAW }
        } else {
            self
        }
    }

    /// The fractional part, in `[0, 1)`. A negative number `-t` gives
    /// `1 - (t mod 1)`, and zero where `t` is whole.
    pub fn wrap_unit(self) -> (r: Fixed)
        ensures
            r.raw == wrap_unit_raw(self.raw as int),
            0 <= r.raw < ONE_RAW,
    {
        if self.raw >= 0 {
            Fixed { raw: self.raw % ONE_RAW }
        } else {
            let n: i128 = -(self.raw as i128);
            let m: i128 = n % (ONE_RAW as i128);
            if m == 0 {
                Fixed { raw: 0 }
            } else {
                Fixed { raw: (ONE_RAW as i128 - m) as i64 }
            }
        }
    }

    /// The sum of two numbers, saturating at the ends of the range.
    pub fn plus(self, other: Fixed) -> (r: Fixed)
        ensures
            r.raw == saturate(self.raw + other.raw),
    {
        Fixed { raw: saturate_i128(self.raw as i128 + other.raw as i128) }
    }

    /// The difference of two numbers, saturating at the ends of the range.
    pub fn minus(self, other: Fixed) -> (r: Fixed)
        ensures
            r.raw == saturate(self.raw - other.raw),
    {
        Fixed { raw: saturate_i128(self.raw as i128 - other.raw as i128) }
    }

    /// The number with the opposite sign, saturating at the end of the range.
    pub fn negated(self) -> (r: Fixed)
        ensures
            r.raw == saturate(-self.raw),
    {
        Fixed { raw: saturate_i128(-(self.raw as i128)) }
    }

    /// The product of two numbers, rounded down and saturating at the ends of
    /// the range.
    pub fn times(self, other: Fixed) -> (r: Fixed)
        ensures
            r.raw == saturate(scale_raw(self.raw as int, other.raw as int)),
    {
        Fixed { raw: saturate_i128(scale_wide(self.raw as i128, other.raw as i128)) }
    }

    /// Linear interpolation from `self` to `other`: `self` at `t` zero,
    /// `other` at `t` one, and in between `self + (other - self) * t` with the
    /// product rounded down.
    pub fn lerp(self, other: Fixed, t: Fixed) -> (r: Fixed)
        requires
            t.in_unit(),
        ensures
            r.raw == lerp_raw(self.raw as int, other.raw as int, t.raw as int),
    {
        let d: i128 = other.raw as i128 - self.raw as i128;
        proof {
            lemma_scale_bounds(d as int, t.raw as int);
        }
        let q: i128 = scale_wide(d, t.raw as i128);
        Fixed { raw: (self.raw as i128 + q) as i64 }
    }
}

/// The rounded-down product of two raw values, in 128 bits. The bounds admit
/// the difference of two raw values times a number of the unit interval, and
/// a raw value times one minus a raw value.
pub(crate) fn scale_wide(x: i128, t: i128) -> (q: i128)
    requires
        (-0x1_0000_0000_0000_0000 <= x <= 0x1_0000_0000_0000_0000 && 0 <= t <= ONE_RAW) || (
        -0x8000_0000_0000_0000 <= x <= 0x8000_0000_0000_0000 && -0x8000_0001_0000_0000 <= t
            <= 0x8000_0001_0000_0000),
    ensures
        q == scale_raw(x as int, t as int),
{
    assert(-0x4000_0000_8000_0000_0000_0000_0000_0000 <= x * t
        <= 0x4000_0000_8000_0000_0000_0000_0000_0000) by (nonlinear_arith)
        requires
            (-0x1_0000_0000_0000_0000 <= x <= 0x1_0000_0000_0000_0000 && 0 <= t
                <= 0x1_0000_0000) || (-0x8000_0000_0000_0000 <= x <= 0x8000_0000_0000_0000
                && -0x8000_0001_0000_0000 <= t <= 0x8000_0001_0000_0000),
    ;
    floor_div(x * t, ONE_RAW as i128)
}

/// A number has one square root rounded down, and no other.
pub proof fn lemma_sqrt_floor_unique(n: int, r: int)
    requires
        is_sqrt_floor(n, r),
    ensures
        sqrt_floor(n) == r,
{
    let s = sqrt_floor(n);
    if s < r {
        assert((s + 1) * (s + 1) <= r * r) by (nonlinear_arith)
            requires
                0 <= s,
                s + 1 <= r,
        ;
    }
    if r < s {
        assert((r + 1) * (r + 1) <= s * s) by (nonlinear_arith)
            requires
                0 <= r,
                r + 1 <= s,
        ;
    }
}

/// Neither side of a right triangle is longer than the rounded-down length
/// of the third.
pub proof fn lemma_side_within_length(dx: int, dy: int, len: int)
    requires
        is_sqrt_floor(dx * dx + dy * dy, len),
    ensures
        -len <= dx <= len,
        -len <= dy <= len,
{
    assert(dx * dx < (len + 1) * (len + 1) && dy * dy < (len + 1) * (len + 1)) by (nonlinear_arith)
        requires
            dx * dx + dy * dy < (len + 1) * (len + 1),
    ;
    assert(-len <= dx <= len) by (nonlinear_arith)
        requires
            dx * dx < (len + 1) * (len + 1),
            len >= 0,
    ;
    assert(-len <= dy <= len) by (nonlinear_arith)
        requires
            dy * dy < (len + 1) * (len + 1),
            len >= 0,
    ;
}

/// Rounding a negative quotient down is rounding the positive one up.
pub proof fn lemma_floor_of_negative(n: int, d: int)
    requires
        n >= 0,
        d > 0,
    ensures
        (-n) / d == -((n + (d - 1)) / d),
{
    let c = (n + (d - 1)) / d;
    assert(n + (d - 1) == d * c + (n + (d - 1)) % d && 0 <= (n + (d - 1)) % d < d)
        by (nonlinear_arith)
        requires
            d > 0,
            c == (n + (d - 1)) / d,
    ;
    let r = (n + (d - 1)) % d;
    assert(d * (-c) == -(d * c)) by (nonlinear_arith);
    assert((-n) / d == -c) by (nonlinear_arith)
        requires
            d > 0,
            -n == d * (-c) + (d - 1 - r),
            0 <= d - 1 - r < d,
    ;
}

/// The product of `x` and `t` stays within the same bounds as `x` while `t`
/// is in the unit interval.
pub proof fn lemma_scale_bounds(x: int, t: int)
    requires
        0 <= t <= ONE_RAW,
    ensures
        x >= 0 ==> 0 <= scale_raw(x, t) <= x,
        x <= 0 ==> x <= scale_raw(x, t) <= 0,
        scale_raw(x, 0) == 0,
        scale_raw(x, ONE_RAW as int) == x,
{
    let one = ONE_RAW as int;
    assert((x * one) / one == x) by (nonlinear_arith)
        requires
            one > 0,
    ;
    if x >= 0 {
        assert(0 <= x * t <= x * one) by (nonlinear_arith)
            requires
                0 <= t <= one,
                x >= 0,
        ;
        assert(0 <= (x * t) / one <= x) by (nonlinear_arith)
            requires
                0 <= x * t <= x * one,
                one > 0,
        ;
    } else {
        assert(x * one <= x * t <= 0) by (nonlinear_arith)
            requires
                0 <= t <= one,
                x <= 0,
        ;
        assert(x <= (x * t) / one <= 0) by (nonlinear_arith)
            requires
                x * one <= x * t <= 0,
                one > 0,
        ;
    }
}

} // verus!
