//! Sine and cosine of a fixed-point angle in radians.
//!
//! The angle is reduced to one turn, folded into the first quarter turn, and
//! the power series is summed there in fixed point, innermost term first.
//! Every intermediate value lies between zero and one, so nothing overflows
//! and the result never leaves `[-1, 1]`.

use vstd::prelude::*;
use crate::scalar::{Scalar, SCALE};

verus! {

/// A quarter turn, in raw units.
pub const QUARTER_TURN: i64 = 1_570_796_327;

/// A half turn, in raw units.
pub const HALF_TURN: i64 = 3_141_592_654;

/// A whole turn, in raw units.
pub const TURN: i64 = 6_283_185_308;

/// One step of the nested form of a power series: `1 - (x2 * t) / k`,
/// stopped at zero. `x2` is the square of the argument and `t` the value of
/// the steps inside this one, both in raw units.
pub open spec fn series_step(x2: int, t: int, k: int) -> int {
    let q = (x2 * t / (SCALE as int)) / k;
    if q > SCALE {
        0
    } else {
        SCALE - q
    }
}

/// The square of `x`, in raw units.
pub open spec fn squared(x: int) -> int {
    x * x / (SCALE as int)
}

/// The sine series on the first quarter turn, to the term in `x^15`:
/// `x (1 - x²/6 (1 - x²/20 (1 - x²/42 (... (1 - x²/210)))))`.
pub open spec fn sine_series(x: int) -> int {
    let x2 = squared(x);
    let t7 = series_step(x2, SCALE as int, 210);
    let t6 = series_step(x2, t7, 156);
    let t5 = series_step(x2, t6, 110);
    let t4 = series_step(x2, t5, 72);
    let t3 = series_step(x2, t4, 42);
    let t2 = series_step(x2, t3, 20);
    let t1 = series_step(x2, t2, 6);
    let s = x * t1 / (SCALE as int);
    if s > SCALE {
        SCALE as int
    } else {
        s
    }
}

/// The cosine series on the first quarter turn, to the term in `x^16`:
/// `1 - x²/2 (1 - x²/12 (1 - x²/30 (... (1 - x²/240))))`.
pub open spec fn cosine_series(x: int) -> int {
    let x2 = squared(x);
    let t8 = series_step(x2, SCALE as int, 240);
    let t7 = series_step(x2, t8, 182);
    let t6 = series_step(x2, t7, 132);
    let t5 = series_step(x2, t6, 90);
    let t4 = series_step(x2, t5, 56);
    let t3 = series_step(x2, t4, 30);
    let t2 = series_step(x2, t3, 12);
    series_step(x2, t2, 2)
}

/// The angle `a` brought into `[0, TURN)`.
pub open spec fn within_turn(a: int) -> int {
    a % (TURN as int)
}

fn step(x2: u64, t: u64, k: u64) -> (r: u64)
    requires
        x2 <= 2_467_401_102,
        t <= SCALE,
        k > 0,
    ensures
        r == series_step(x2 as int, t as int, k as int),
        r <= SCALE,
{
    assert(x2 * t <= 2_467_401_102 * 1_000_000_000) by (nonlinear_arith)
        requires
            x2 <= 2_467_401_102,
            t <= 1_000_000_000,
    ;
    let q: u64 = (x2 * t / 1_000_000_000u64) / k;
    if q > 1_000_000_000u64 {
        0
    } else {
        1_000_000_000u64 - q
    }
}

fn square(x: u64) -> (r: u64)
    requires
        x <= QUARTER_TURN,
    ensures
        r == squared(x as int),
        r <= 2_467_401_102,
{
    assert(x * x <= 1_570_796_327 * 1_570_796_327) by (nonlinear_arith)
        requires
            x <= 1_570_796_327,
    ;
    x * x / 1_000_000_000u64
}

fn sine_on_quarter(x: u64) -> (r: i64)
    requires
        x <= QUARTER_TURN,
    ensures
        r == sine_series(x as int),
        0 <= r <= SCALE,
{
    let x2 = square(x);
    let t7 = step(x2, 1_000_000_000u64, 210);
    let t6 = step(x2, t7, 156);
    let t5 = step(x2, t6, 110);
    let t4 = step(x2, t5, 72);
    let t3 = step(x2, t4, 42);
    let t2 = step(x2, t3, 20);
    let t1 = step(x2, t2, 6);
    assert(x * t1 <= 1_570_796_327 * 1_000_000_000) by (nonlinear_arith)
        requires
            x <= 1_570_796_327,
            t1 <= 1_000_000_000,
    ;
    let s: u64 = x * t1 / 1_000_000_000u64;
    if s > 1_000_000_000u64 {
        1_000_000_000i64
    } else {
        s as i64
    }
}

fn cosine_on_quarter(x: u64) -> (r: i64)
    requires
        x <= QUARTER_TURN,
    ensures
        r == cosine_series(x as int),
        0 <= r <= SCALE,
{
    let x2 = square(x);
    let t8 = step(x2, 1_000_000_000u64, 240);
    let t7 = step(x2, t8, 182);
    let t6 = step(x2, t7, 132);
    let t5 = step(x2, t6, 90);
    let t4 = step(x2, t5, 56);
    let t3 = step(x2, t4, 30);
    let t2 = step(x2, t3, 12);
    step(x2, t2, 2) as i64
}

fn reduce(raw: i64) -> (r: u64)
    ensures
        r == within_turn(raw as int),
        r < TURN,
{
    if raw >= 0 {
        (raw as u64) % 6_283_185_308u64
    } else {
        let m: u64 = (-(raw as i128)) as u64;
        let back: u64 = m % 6_283_185_308u64;
        if back == 0 {
            0
        } else {
            6_283_185_308u64 - back
        }
    }
}

impl Scalar {
    pub open spec fn spec_sin(self) -> Scalar {
        let r = within_turn(self.raw as int);
        if r <= QUARTER_TURN {
            Scalar { raw: sine_series(r) as i64 }
        } else if r <= HALF_TURN {
            Scalar { raw: sine_series(HALF_TURN - r) as i64 }
        } else if r <= HALF_TURN + QUARTER_TURN {
            Scalar { raw: (-sine_series(r - HALF_TURN)) as i64 }
        } else {
            Scalar { raw: (-sine_series(TURN - r)) as i64 }
        }
    }

    /// The sine of `self`, an angle in radians.
    #[verifier::when_used_as_spec(spec_sin)]
    pub fn sin(self) -> (r: Scalar)
        ensures
            r == self.spec_sin(),
            -SCALE <= r.raw <= SCALE,
    {
        let r = reduce(self.raw);
        if r <= 1_570_796_327u64 {
            Scalar { raw: sine_on_quarter(r) }
        } else if r <= 3_141_592_654u64 {
            Scalar { raw: sine_on_quarter(3_141_592_654u64 - r) }
        } else if r <= 4_712_388_981u64 {
            Scalar { raw: -sine_on_quarter(r - 3_141_592_654u64) }
        } else {
            Scalar { raw: -sine_on_quarter(6_283_185_308u64 - r) }
        }
    }

    pub open spec fn spec_cos(self) -> Scalar {
        let r = within_turn(self.raw as int);
        if r <= QUARTER_TURN {
            Scalar { raw: cosine_series(r) as i64 }
        } else if r <= HALF_TURN {
            Scalar { raw: (-cosine_series(HALF_TURN - r)) as i64 }
        } else if r < HALF_TURN + QUARTER_TURN {
            Scalar { raw: (-cosine_series(r - HALF_TURN)) as i64 }
        } else {
            Scalar { raw: cosine_series(TURN - r) as i64 }
        }
    }

    /// The cosine of `self`, an angle in radians.
    #[verifier::when_used_as_spec(spec_cos)]
    pub fn cos(self) -> (r: Scalar)
        ensures
            r == self.spec_cos(),
            -SCALE <= r.raw <= SCALE,
    {
        let r = reduce(self.raw);
        if r <= 1_570_796_327u64 {
            Scalar { raw: cosine_on_quarter(r) }
        } else if r <= 3_141_592_654u64 {
            Scalar { raw: -cosine_on_quarter(3_141_592_654u64 - r) }
        } else if r < 4_712_388_981u64 {
            Scalar { raw: -cosine_on_quarter(r - 3_141_592_654u64) }
        } else {
            Scalar { raw: cosine_on_quarter(6_283_185_308u64 - r) }
        }
    }
}

/// A step of a series stays between zero and one.
proof fn lemma_step_bounds(x2: int, t: int, k: int)
    requires
        x2 >= 0,
        t >= 0,
        k > 0,
    ensures
        0 <= series_step(x2, t, k) <= SCALE,
{
    assert(x2 * t >= 0) by (nonlinear_arith)
        requires
            x2 >= 0,
            t >= 0,
    ;
    let p = x2 * t / (SCALE as int);
    assert(p / k >= 0) by (nonlinear_arith)
        requires
            p >= 0,
            k > 0,
    ;
}

/// Both series stay between zero and one on arguments that are not
/// negative.
pub proof fn lemma_series_bounds(x: int)
    requires
        x >= 0,
    ensures
        0 <= sine_series(x) <= SCALE,
        0 <= cosine_series(x) <= SCALE,
{
    assert(x * x >= 0) by (nonlinear_arith);
    let x2 = squared(x);
    let s7 = series_step(x2, SCALE as int, 210);
    lemma_step_bounds(x2, SCALE as int, 210);
    let s6 = series_step(x2, s7, 156);
    lemma_step_bounds(x2, s7, 156);
    let s5 = series_step(x2, s6, 110);
    lemma_step_bounds(x2, s6, 110);
    let s4 = series_step(x2, s5, 72);
    lemma_step_bounds(x2, s5, 72);
    let s3 = series_step(x2, s4, 42);
    lemma_step_bounds(x2, s4, 42);
    let s2 = series_step(x2, s3, 20);
    lemma_step_bounds(x2, s3, 20);
    let s1 = series_step(x2, s2, 6);
    lemma_step_bounds(x2, s2, 6);
    assert(x * s1 >= 0) by (nonlinear_arith)
        requires
            x >= 0,
            s1 >= 0,
    ;
    let c8 = series_step(x2, SCALE as int, 240);
    lemma_step_bounds(x2, SCALE as int, 240);
    let c7 = series_step(x2, c8, 182);
    lemma_step_bounds(x2, c8, 182);
    let c6 = series_step(x2, c7, 132);
    lemma_step_bounds(x2, c7, 132);
    let c5 = series_step(x2, c6, 90);
    lemma_step_bounds(x2, c6, 90);
    let c4 = series_step(x2, c5, 56);
    lemma_step_bounds(x2, c5, 56);
    let c3 = series_step(x2, c4, 30);
    lemma_step_bounds(x2, c4, 30);
    let c2 = series_step(x2, c3, 12);
    lemma_step_bounds(x2, c3, 12);
    lemma_step_bounds(x2, c2, 2);
}

/// The sine is odd and the cosine is even.
pub proof fn law_sine_is_odd_and_cosine_even(angle: Scalar)
    requires
        angle.raw != i64::MIN,
    ensures
        angle.neg().sin() == angle.sin().neg(),
        angle.neg().cos() == angle.cos(),
{
    let r = within_turn(angle.raw as int);
    let back = within_turn(-angle.raw);
    assert(back == if r == 0 {
        0
    } else {
        TURN - r
    });
    if r <= QUARTER_TURN {
        lemma_series_bounds(r);
    } else if r <= HALF_TURN {
        lemma_series_bounds(HALF_TURN - r);
    } else if r <= HALF_TURN + QUARTER_TURN {
        lemma_series_bounds(r - HALF_TURN);
    } else {
        lemma_series_bounds(TURN - r);
    }
    assert(sine_series(0) == 0) by {
        assert(squared(0) == 0);
    }
}

/// On level ground the sine is exactly zero and the cosine exactly one.
pub proof fn law_level_ground_is_exact()
    ensures
        Scalar::zero().sin() == Scalar::zero(),
        Scalar::zero().cos() == Scalar::one(),
{
    assert(squared(0) == 0);
    assert(series_step(0, SCALE as int, 210) == SCALE);
    assert(series_step(0, SCALE as int, 240) == SCALE);
    assert(series_step(0, SCALE as int, 2) == SCALE);
}

} // verus!
