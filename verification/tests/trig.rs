use onedim::scalar::Scalar;
use onedim::trig::{HALF_TURN, QUARTER_TURN, TURN};

fn raw(n: i64) -> Scalar {
    Scalar { raw: n }
}

#[test]
fn level_ground_is_exact() {
    assert_eq!(raw(0).sin(), raw(0));
    assert_eq!(raw(0).cos(), raw(1_000_000_000));
}

#[test]
fn known_angles() {
    assert_eq!(raw(500_000_000).sin(), raw(479_425_539));
    assert_eq!(raw(500_000_000).cos(), raw(877_582_562));
    assert_eq!(raw(QUARTER_TURN).sin(), raw(1_000_000_000));
    assert_eq!(raw(QUARTER_TURN).cos(), raw(1));
    assert_eq!(raw(523_598_776).sin(), raw(500_000_000));
    assert_eq!(raw(1_047_197_551).cos(), raw(500_000_001));
}

#[test]
fn the_turn_constants_fit_together() {
    assert_eq!(2 * QUARTER_TURN, HALF_TURN);
    assert_eq!(2 * HALF_TURN, TURN);
    assert!((HALF_TURN as f64 / 1e9 - std::f64::consts::PI).abs() < 1e-9);
}

#[test]
fn a_whole_turn_changes_nothing() {
    for a in [-3 * TURN, -TURN, 0, TURN, 5 * TURN] {
        for offset in [0, 1, 123_456_789, QUARTER_TURN, HALF_TURN + 5, TURN - 1] {
            assert_eq!(raw(a + offset).sin(), raw(offset).sin());
            assert_eq!(raw(a + offset).cos(), raw(offset).cos());
        }
    }
}

#[test]
fn sine_is_odd_and_cosine_is_even() {
    for a in [1, 17, 500_000_000, QUARTER_TURN, 2_000_000_000, HALF_TURN, 4_000_000_000, 6_000_000_000, i64::MAX] {
        assert_eq!(raw(-a).sin(), raw(a).sin().neg(), "at {}", a);
        assert_eq!(raw(-a).cos(), raw(a).cos(), "at {}", a);
    }
}

#[test]
fn close_to_the_true_sine_and_cosine() {
    let mut a: i64 = -20_000_000_000;
    while a <= 20_000_000_000 {
        let x = a as f64 / 1e9;
        let s = raw(a).sin().raw as f64 / 1e9;
        let c = raw(a).cos().raw as f64 / 1e9;
        assert!((s - x.sin()).abs() < 1e-8, "sin at {}", a);
        assert!((c - x.cos()).abs() < 1e-8, "cos at {}", a);
        a += 1_234_567;
    }
}

#[test]
fn never_beyond_one() {
    let mut a: i64 = i64::MIN;
    let mut steps = 0;
    while steps < 4000 {
        let s = raw(a).sin().raw;
        let c = raw(a).cos().raw;
        assert!((-1_000_000_000..=1_000_000_000).contains(&s));
        assert!((-1_000_000_000..=1_000_000_000).contains(&c));
        a = a.saturating_add(4_611_686_018_427_387);
        steps += 1;
    }
    assert_eq!(raw(i64::MIN).sin().raw.abs() <= 1_000_000_000, true);
}
