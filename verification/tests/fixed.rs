use bevy_vello_graphics::fixed::{Fixed, ONE_RAW};

fn fx(v: f64) -> Fixed {
    Fixed { raw: (v * 4294967296.0) as i64 }
}

#[test]
fn one_has_thirty_two_fractional_bits() {
    assert_eq!(ONE_RAW, 1i64 << 32);
    assert_eq!(Fixed::one().raw, 1i64 << 32);
    assert_eq!(Fixed::zero().raw, 0);
}

#[test]
fn whole_numbers_are_exact() {
    assert_eq!(Fixed::from_int(3), fx(3.0));
    assert_eq!(Fixed::from_int(-200), fx(-200.0));
    assert_eq!(Fixed::from_int(i32::MIN).raw, (i32::MIN as i64) << 32);
    assert_eq!(Fixed::from_int(i32::MAX).raw, (i32::MAX as i64) << 32);
}

#[test]
fn ratios_round_down() {
    assert_eq!(Fixed::from_ratio(1, 2), fx(0.5));
    assert_eq!(Fixed::from_ratio(3, 4), fx(0.75));
    assert_eq!(Fixed::from_ratio(-1, 4), fx(-0.25));
    // a third is not exact: it is rounded towards negative infinity
    assert_eq!(Fixed::from_ratio(1, 3).raw, 1431655765);
    assert_eq!(Fixed::from_ratio(-1, 3).raw, -1431655766);
    assert_eq!(Fixed::from_ratio(i32::MIN, 1).raw, (i32::MIN as i64) << 32);
    assert_eq!(Fixed::from_ratio(7, u32::MAX).raw, 7);
}

#[test]
fn unit_interval_has_both_ends() {
    assert!(Fixed::zero().is_unit());
    assert!(Fixed::one().is_unit());
    assert!(fx(0.5).is_unit());
    assert!(!Fixed { raw: -1 }.is_unit());
    assert!(!Fixed { raw: ONE_RAW + 1 }.is_unit());
}

#[test]
fn clamp_unit_stops_at_the_ends() {
    assert_eq!(fx(-0.2).clamp_unit(), fx(0.0));
    assert_eq!(fx(1.2).clamp_unit(), fx(1.0));
    assert_eq!(fx(0.25).clamp_unit(), fx(0.25));
    assert_eq!(Fixed { raw: i64::MIN }.clamp_unit(), fx(0.0));
    assert_eq!(Fixed { raw: i64::MAX }.clamp_unit(), fx(1.0));
}

#[test]
fn wrap_unit_keeps_the_fraction() {
    assert_eq!(fx(0.0).wrap_unit(), fx(0.0));
    assert_eq!(fx(0.25).wrap_unit(), fx(0.25));
    assert_eq!(fx(1.0).wrap_unit(), fx(0.0));
    assert_eq!(fx(1.75).wrap_unit(), fx(0.75));
    assert_eq!(fx(17.5).wrap_unit(), fx(0.5));
}

#[test]
fn wrap_unit_of_a_negative_number_counts_from_one() {
    assert_eq!(fx(-0.25).wrap_unit(), fx(0.75));
    assert_eq!(fx(-1.25).wrap_unit(), fx(0.75));
    assert_eq!(fx(-1.0).wrap_unit(), fx(0.0));
    assert_eq!(fx(-3.0).wrap_unit(), fx(0.0));
    assert_eq!(Fixed { raw: -1 }.wrap_unit(), Fixed { raw: ONE_RAW - 1 });
    assert_eq!(Fixed { raw: i64::MIN }.wrap_unit(), fx(0.0));
}

#[test]
fn plus_and_minus_saturate() {
    assert_eq!(fx(1.5).plus(fx(2.25)), fx(3.75));
    assert_eq!(fx(1.5).minus(fx(2.25)), fx(-0.75));
    assert_eq!(Fixed { raw: i64::MAX }.plus(Fixed { raw: 1 }).raw, i64::MAX);
    assert_eq!(Fixed { raw: i64::MIN }.plus(Fixed { raw: -1 }).raw, i64::MIN);
    assert_eq!(Fixed { raw: i64::MIN }.minus(Fixed { raw: 1 }).raw, i64::MIN);
    assert_eq!(Fixed { raw: i64::MAX }.minus(Fixed { raw: -1 }).raw, i64::MAX);
}

#[test]
fn negated_saturates_at_the_least_number() {
    assert_eq!(fx(2.5).negated(), fx(-2.5));
    assert_eq!(fx(-2.5).negated(), fx(2.5));
    assert_eq!(Fixed { raw: i64::MIN }.negated().raw, i64::MAX);
}

#[test]
fn times_rounds_down() {
    assert_eq!(fx(1.5).times(fx(2.5)), fx(3.75));
    assert_eq!(fx(-100.0).times(fx(0.5)), fx(-50.0));
    // the smallest positive number times a half is below the resolution
    assert_eq!(Fixed { raw: 1 }.times(fx(0.5)).raw, 0);
    assert_eq!(Fixed { raw: -1 }.times(fx(0.5)).raw, -1);
    assert_eq!(Fixed { raw: 3 }.times(fx(0.5)).raw, 1);
    assert_eq!(Fixed { raw: -3 }.times(fx(0.5)).raw, -2);
}

#[test]
fn times_saturates() {
    assert_eq!(Fixed { raw: i64::MAX }.times(fx(2.0)).raw, i64::MAX);
    assert_eq!(Fixed { raw: i64::MIN }.times(fx(2.0)).raw, i64::MIN);
    assert_eq!(Fixed { raw: i64::MIN }.times(Fixed { raw: i64::MIN }).raw, i64::MAX);
    assert_eq!(Fixed { raw: i64::MIN }.times(fx(1.0)).raw, i64::MIN);
}

#[test]
fn lerp_reaches_both_ends_exactly() {
    let a = Fixed { raw: 123456789012345 };
    let b = Fixed { raw: -987654321098765 };
    assert_eq!(a.lerp(b, Fixed::zero()), a);
    assert_eq!(a.lerp(b, Fixed::one()), b);
    let lo = Fixed { raw: i64::MIN };
    let hi = Fixed { raw: i64::MAX };
    assert_eq!(lo.lerp(hi, Fixed::zero()), lo);
    assert_eq!(lo.lerp(hi, Fixed::one()), hi);
    assert_eq!(hi.lerp(lo, Fixed::one()), lo);
}

#[test]
fn lerp_rounds_down() {
    assert_eq!(fx(0.0).lerp(fx(10.0), fx(0.25)), fx(2.5));
    assert_eq!(fx(10.0).lerp(fx(0.0), fx(0.25)), fx(7.5));
    assert_eq!(Fixed { raw: 0 }.lerp(Fixed { raw: 1 }, fx(0.5)).raw, 0);
    assert_eq!(Fixed { raw: 0 }.lerp(Fixed { raw: -1 }, fx(0.5)).raw, -1);
    assert_eq!(Fixed { raw: i64::MIN }.lerp(Fixed { raw: i64::MAX }, fx(0.5)).raw, -1);
}

#[test]
fn lerp_never_moves_against_the_time() {
    let a = Fixed { raw: -7 };
    let b = Fixed { raw: 1000003 };
    let mut last = a.lerp(b, Fixed::zero()).raw;
    let mut back = b.lerp(a, Fixed::zero()).raw;
    for step in 1..=64i64 {
        let t = Fixed { raw: step * (ONE_RAW / 64) };
        let up = a.lerp(b, t).raw;
        let down = b.lerp(a, t).raw;
        assert!(up >= last);
        assert!(down <= back);
        // no faster than the time: a 64th of the distance and one unit of rounding
        assert!(up - last <= (1000003 + 7) / 64 + 2);
        last = up;
        back = down;
    }
    assert_eq!(last, b.raw);
    assert_eq!(back, a.raw);
}
