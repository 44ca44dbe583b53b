use onedim::scalar::{Scalar, SCALE};

fn raw(n: i64) -> Scalar {
    Scalar { raw: n }
}

fn s(n: i64) -> Scalar {
    Scalar::from_int(n)
}

#[test]
fn constants_are_what_they_say() {
    assert_eq!(SCALE, 1_000_000_000);
    assert_eq!(Scalar::zero(), raw(0));
    assert_eq!(Scalar::one(), raw(1_000_000_000));
    assert_eq!(Scalar::two(), raw(2_000_000_000));
    assert_eq!(Scalar::half(), raw(500_000_000));
}

#[test]
fn whole_numbers_and_spans_of_time() {
    assert_eq!(s(7), raw(7_000_000_000));
    assert_eq!(s(-7), raw(-7_000_000_000));
    assert_eq!(s(9_223_372_036), raw(9_223_372_036_000_000_000));
    assert_eq!(s(9_223_372_037), raw(i64::MAX));
    assert_eq!(s(i64::MIN), raw(i64::MIN));
    assert_eq!(Scalar::from_u32(u32::MAX), raw(4_294_967_295_000_000_000));
    assert_eq!(Scalar::from_i32(i32::MIN), raw(-2_147_483_648_000_000_000));
    assert_eq!(Scalar::from_nanos(16_666_666), raw(16_666_666));
    assert_eq!(Scalar::from_nanos(u128::MAX), raw(i64::MAX));
    assert_eq!(Scalar::from_nanos(1 << 63), raw(i64::MAX));
}

#[test]
fn sums_and_differences_stop_at_the_ends() {
    assert_eq!(s(2).add(s(3)), s(5));
    assert_eq!(s(2).sub(s(3)), s(-1));
    assert_eq!(raw(i64::MAX).add(raw(1)), raw(i64::MAX));
    assert_eq!(raw(i64::MIN).add(raw(-1)), raw(i64::MIN));
    assert_eq!(raw(i64::MIN).sub(raw(1)), raw(i64::MIN));
    assert_eq!(raw(i64::MAX).sub(raw(-1)), raw(i64::MAX));
    assert_eq!(raw(0).sub(raw(i64::MIN)), raw(i64::MAX));
    assert_eq!(raw(i64::MAX).add(raw(i64::MIN)), raw(-1));
}

#[test]
fn negation_and_magnitude() {
    assert_eq!(s(4).neg(), s(-4));
    assert_eq!(raw(i64::MIN).neg(), raw(i64::MAX));
    assert_eq!(raw(i64::MAX).neg(), raw(i64::MIN + 1));
    assert_eq!(s(-4).abs(), s(4));
    assert_eq!(s(4).abs(), s(4));
    assert_eq!(raw(i64::MIN).abs(), raw(i64::MAX));
}

#[test]
fn copysign_takes_the_sign_of_its_argument() {
    assert_eq!(s(3).copysign(s(-1)), s(-3));
    assert_eq!(s(-3).copysign(s(-1)), s(-3));
    assert_eq!(s(-3).copysign(s(1)), s(3));
    assert_eq!(s(-3).copysign(s(0)), s(3));
    assert_eq!(s(0).copysign(s(-5)), s(0));
    assert_eq!(raw(i64::MIN).copysign(s(-1)), raw(i64::MIN + 1));
}

#[test]
fn products_round_toward_zero() {
    assert_eq!(raw(1_500_000_000).mul(raw(2_500_000_000)), raw(3_750_000_000));
    assert_eq!(s(3).mul(raw(-333_333_333)), raw(-999_999_999));
    assert_eq!(raw(1).mul(raw(1)), raw(0));
    assert_eq!(raw(-1).mul(raw(999_999_999)), raw(0));
    assert_eq!(raw(3).mul(raw(500_000_000)), raw(1));
    assert_eq!(raw(-3).mul(raw(500_000_000)), raw(-1));
    assert_eq!(s(-2).mul(s(-3)), s(6));
    assert_eq!(s(0).mul(raw(i64::MIN)), s(0));
}

#[test]
fn products_stop_at_the_ends() {
    assert_eq!(raw(i64::MAX).mul(s(2)), raw(i64::MAX));
    assert_eq!(raw(i64::MAX).mul(s(-2)), raw(i64::MIN));
    assert_eq!(raw(i64::MIN).mul(raw(i64::MIN)), raw(i64::MAX));
    assert_eq!(raw(i64::MIN).mul(raw(i64::MAX)), raw(i64::MIN));
    assert_eq!(raw(i64::MIN).mul(Scalar::one()), raw(i64::MIN));
    assert_eq!(s(100_000).mul(s(100_000)), raw(i64::MAX));
}

#[test]
fn quotients_round_toward_zero() {
    assert_eq!(s(1).div(s(3)), raw(333_333_333));
    assert_eq!(s(-1).div(s(3)), raw(-333_333_333));
    assert_eq!(s(1).div(s(-3)), raw(-333_333_333));
    assert_eq!(s(-1).div(s(-3)), raw(333_333_333));
    assert_eq!(s(7).div(s(2)), raw(3_500_000_000));
    assert_eq!(raw(1).div(s(2)), raw(0));
    assert_eq!(s(5).div(s(5)), Scalar::one());
    assert_eq!(s(0).div(s(5)), s(0));
}

#[test]
fn division_by_zero_gives_the_end_on_the_side_of_the_dividend() {
    assert_eq!(s(1).div(s(0)), raw(i64::MAX));
    assert_eq!(raw(-1).div(s(0)), raw(i64::MIN));
    assert_eq!(s(0).div(s(0)), s(0));
}

#[test]
fn quotients_stop_at_the_ends() {
    assert_eq!(raw(i64::MAX).div(Scalar::half()), raw(i64::MAX));
    assert_eq!(raw(i64::MIN).div(Scalar::half()), raw(i64::MIN));
    assert_eq!(s(1).div(raw(-1)), raw(-1_000_000_000_000_000_000));
    assert_eq!(s(10).div(raw(1)), raw(i64::MAX));
    assert_eq!(raw(i64::MIN).div(raw(i64::MIN)), Scalar::one());
    assert_eq!(raw(i64::MIN).div(Scalar::one().neg()), raw(i64::MAX));
}

#[test]
fn whole_parts() {
    assert_eq!(raw(2_900_000_000).to_i32(), 2);
    assert_eq!(raw(-2_900_000_000).to_i32(), -2);
    assert_eq!(raw(999_999_999).to_i32(), 0);
    assert_eq!(raw(-999_999_999).to_i32(), 0);
    assert_eq!(s(2_147_483_647).to_i32(), i32::MAX);
    assert_eq!(s(2_147_483_648).to_i32(), i32::MAX);
    assert_eq!(s(-2_147_483_648).to_i32(), i32::MIN);
    assert_eq!(s(-2_147_483_649).to_i32(), i32::MIN);
    assert_eq!(raw(i64::MIN).to_i32(), i32::MIN);
    assert_eq!(raw(2_900_000_000).to_u32(), 2);
    assert_eq!(raw(-2_900_000_000).to_u32(), 0);
    assert_eq!(s(4_294_967_295).to_u32(), u32::MAX);
    assert_eq!(s(4_294_967_296).to_u32(), u32::MAX);
    assert_eq!(raw(i64::MAX).to_u32(), u32::MAX);
}

#[test]
fn arithmetic_agrees_with_wide_integers() {
    let samples: [i64; 12] = [
        0,
        1,
        -1,
        999_999_999,
        1_000_000_000,
        -1_000_000_001,
        123_456_789_012,
        -987_654_321_098_765,
        i64::MAX,
        i64::MIN,
        i64::MAX - 1,
        i64::MIN + 1,
    ];
    let lo = i64::MIN as i128;
    let hi = i64::MAX as i128;
    for &a in &samples {
        for &b in &samples {
            let (x, y) = (a as i128, b as i128);
            assert_eq!(raw(a).add(raw(b)).raw as i128, (x + y).clamp(lo, hi));
            assert_eq!(raw(a).sub(raw(b)).raw as i128, (x - y).clamp(lo, hi));
            assert_eq!(raw(a).mul(raw(b)).raw as i128, (x * y / 1_000_000_000).clamp(lo, hi));
            if b != 0 {
                assert_eq!(raw(a).div(raw(b)).raw as i128, (x * 1_000_000_000 / y).clamp(lo, hi));
            }
        }
    }
}
