//! Fixed-point scalars.
//!
//! Every physical quantity of the engine (position, velocity, force, mass,
//! angle, time step, energy) is a [`Scalar`]: a signed 64-bit count of
//! billionths of a unit. Arithmetic is total. A sum, difference, product or
//! quotient that leaves the representable range stops at the nearest end of
//! it, products and quotients are rounded toward zero, and dividing by zero
//! gives the end of the range on the side of the dividend (zero for `0 / 0`).

use vstd::prelude::*;

verus! {

/// Number of raw units that make up one unit.
pub const SCALE: i64 = 1_000_000_000;

/// A fixed-point number: `raw` billionths of a unit.
#[derive(Clone, Copy, Debug, PartialEq, Eq, Structural)]
pub struct Scalar {
    pub raw: i64,
}

/// The nearest 64-bit signed integer to `x`.
pub open spec fn saturate(x: int) -> i64 {
    if x > i64::MAX {
        i64::MAX
    } else if x < i64::MIN {
        i64::MIN
    } else {
        x as i64
    }
}

/// The absolute value of `x`.
pub open spec fn magnitude(x: int) -> int {
    if x < 0 {
        -x
    } else {
        x
    }
}

/// The quotient of `n` by `d`, rounded toward zero.
pub open spec fn quotient(n: int, d: int) -> int
    recommends
        d != 0,
{
    if n >= 0 {
        if d > 0 {
            n / d
        } else {
            -(n / (-d))
        }
    } else {
        if d > 0 {
            -((-n) / d)
        } else {
            (-n) / (-d)
        }
    }
}

/// The nearest 32-bit signed integer to `x`.
pub open spec fn saturate_i32(x: int) -> i32 {
    if x > i32::MAX {
        i32::MAX
    } else if x < i32::MIN {
        i32::MIN
    } else {
        x as i32
    }
}

/// The nearest 32-bit unsigned integer to `x`.
pub open spec fn saturate_u32(x: int) -> u32 {
    if x > u32::MAX {
        u32::MAX
    } else if x < 0 {
        0
    } else {
        x as u32
    }
}

fn narrow(x: i128) -> (r: i64)
    ensures
        r == saturate(x as int),
{
    if x > i64::MAX as i128 {
        i64::MAX
    } else if x < i64::MIN as i128 {
        i64::MIN
    } else {
        x as i64
    }
}

fn magnitude_of(x: i64) -> (m: u64)
    ensures
        m == magnitude(x as int),
{
    if x < 0 {
        (-(x as i128)) as u64
    } else {
        x as u64
    }
}

/// Gives the magnitude `m` the sign asked for and brings it into range.
fn signed(negative: bool, m: u128) -> (r: i64)
    ensures
        r == saturate(
            if negative {
                -(m as int)
            } else {
                m as int
            },
        ),
{
    if negative {
        if m > 0x8000_0000_0000_0000u128 {
            i64::MIN
        } else {
            (-(m as i128)) as i64
        }
    } else {
        if m > 0x7fff_ffff_ffff_ffffu128 {
            i64::MAX
        } else {
            m as i64
        }
    }
}

impl Scalar {
    pub open spec fn spec_zero() -> Scalar {
        Scalar { raw: 0 }
    }

    /// The scalar 0.
    #[verifier::when_used_as_spec(spec_zero)]
    pub fn zero() -> (r: Scalar)
        ensures
            r == Scalar::spec_zero(),
    {
        Scalar { raw: 0 }
    }

    pub open spec fn spec_one() -> Scalar {
        Scalar { raw: SCALE }
    }

    /// The scalar 1.
    #[verifier::when_used_as_spec(spec_one)]
    pub fn one() -> (r: Scalar)
        ensures
            r == Scalar::spec_one(),
    {
        Scalar { raw: SCALE }
    }

    pub open spec fn spec_two() -> Scalar {
        Scalar { raw: 2_000_000_000 }
    }

    /// The scalar 2.
    #[verifier::when_used_as_spec(spec_two)]
    pub fn two() -> (r: Scalar)
        ensures
            r == Scalar::spec_two(),
    {
        Scalar { raw: 2_000_000_000 }
    }

    pub open spec fn spec_half() -> Scalar {
        Scalar { raw: 500_000_000 }
    }

    /// The scalar 0.5.
    #[verifier::when_used_as_spec(spec_half)]
    pub fn half() -> (r: Scalar)
        ensures
            r == Scalar::spec_half(),
    {
        Scalar { raw: 500_000_000 }
    }

    pub open spec fn spec_from_int(n: i64) -> Scalar {
        Scalar { raw: saturate(n * SCALE) }
    }

    /// The scalar with the whole value `n`, or the end of the range nearest
    /// to it.
    #[verifier::when_used_as_spec(spec_from_int)]
    pub fn from_int(n: i64) -> (r: Scalar)
        ensures
            r == Scalar::spec_from_int(n),
    {
        Scalar { raw: narrow(n as i128 * 1_000_000_000i128) }
    }

    pub open spec fn spec_from_nanos(nanos: u128) -> Scalar {
        Scalar { raw: saturate(nanos as int) }
    }

    /// The scalar that counts `nanos` billionths: a span of time in seconds,
    /// given in nanoseconds.
    #[verifier::when_used_as_spec(spec_from_nanos)]
    pub fn from_nanos(nanos: u128) -> (r: Scalar)
        ensures
            r == Scalar::spec_from_nanos(nanos),
    {
        if nanos > 0x7fff_ffff_ffff_ffffu128 {
            Scalar { raw: i64::MAX }
        } else {
            Scalar { raw: nanos as i64 }
        }
    }

    pub open spec fn spec_from_u32(n: u32) -> Scalar {
        Scalar { raw: (n * SCALE) as i64 }
    }

    /// The scalar with the whole value `n`; every `u32` is in range.
    #[verifier::when_used_as_spec(spec_from_u32)]
    pub fn from_u32(n: u32) -> (r: Scalar)
        ensures
            r == Scalar::spec_from_u32(n),
            r.raw == n * SCALE,
    {
        Scalar { raw: n as i64 * 1_000_000_000i64 }
    }

    pub open spec fn spec_from_i32(n: i32) -> Scalar {
        Scalar { raw: (n * SCALE) as i64 }
    }

    /// The scalar with the whole value `n`; every `i32` is in range.
    #[verifier::when_used_as_spec(spec_from_i32)]
    pub fn from_i32(n: i32) -> (r: Scalar)
        ensures
            r == Scalar::spec_from_i32(n),
            r.raw == n * SCALE,
    {
        Scalar { raw: n as i64 * 1_000_000_000i64 }
    }

    pub open spec fn spec_add(self, other: Scalar) -> Scalar {
        Scalar { raw: saturate(self.raw + other.raw) }
    }

    /// Saturating sum.
    #[verifier::when_used_as_spec(spec_add)]
    pub fn add(self, other: Scalar) -> (r: Scalar)
        ensures
            r == self.spec_add(other),
    {
        Scalar { raw: narrow(self.raw as i128 + other.raw as i128) }
    }

    pub open spec fn spec_sub(self, other: Scalar) -> Scalar {
        Scalar { raw: saturate(self.raw - other.raw) }
    }

    /// Saturating difference.
    #[verifier::when_used_as_spec(spec_sub)]
    pub fn sub(self, other: Scalar) -> (r: Scalar)
        ensures
            r == self.spec_sub(other),
    {
        Scalar { raw: narrow(self.raw as i128 - other.raw as i128) }
    }

    pub open spec fn spec_neg(self) -> Scalar {
        Scalar { raw: saturate(-self.raw) }
    }

    /// Saturating negation.
    #[verifier::when_used_as_spec(spec_neg)]
    pub fn neg(self) -> (r: Scalar)
        ensures
            r == self.spec_neg(),
    {
        Scalar { raw: narrow(-(self.raw as i128)) }
    }

    pub open spec fn spec_abs(self) -> Scalar {
        Scalar { raw: saturate(magnitude(self.raw as int)) }
    }

    /// Saturating absolute value.
    #[verifier::when_used_as_spec(spec_abs)]
    pub fn abs(self) -> (r: Scalar)
        ensures
            r == self.spec_abs(),
    {
        Scalar { raw: signed(false, magnitude_of(self.raw) as u128) }
    }

    pub open spec fn spec_copysign(self, sign: Scalar) -> Scalar {
        if sign.raw < 0 {
            self.spec_abs().spec_neg()
        } else {
            self.spec_abs()
        }
    }

    /// The magnitude of `self` with the sign of `sign`; a `sign` of zero
    /// counts as positive.
    #[verifier::when_used_as_spec(spec_copysign)]
    pub fn copysign(self, sign: Scalar) -> (r: Scalar)
        ensures
            r == self.spec_copysign(sign),
    {
        if sign.raw < 0 {
            self.abs().neg()
        } else {
            self.abs()
        }
    }

    pub open spec fn spec_mul(self, other: Scalar) -> Scalar {
        Scalar { raw: saturate(quotient(self.raw * other.raw, SCALE as int)) }
    }

    /// Saturating product, rounded toward zero.
    #[verifier::when_used_as_spec(spec_mul)]
    pub fn mul(self, other: Scalar) -> (r: Scalar)
        ensures
            r == self.spec_mul(other),
    {
        let a: u128 = magnitude_of(self.raw) as u128;
        let b: u128 = magnitude_of(other.raw) as u128;
        let negative = (self.raw < 0) != (other.raw < 0);
        proof {
            lemma_product_magnitude(self.raw as int, other.raw as int);
            assert(a * b <= 0x8000_0000_0000_0000 * 0x8000_0000_0000_0000) by (nonlinear_arith)
                requires
                    0 <= a <= 0x8000_0000_0000_0000,
                    0 <= b <= 0x8000_0000_0000_0000,
            ;
        }
        let q: u128 = (a * b) / (SCALE as u128);
        Scalar { raw: signed(negative, q) }
    }

    pub open spec fn spec_div(self, other: Scalar) -> Scalar {
        if other.raw == 0 {
            if self.raw > 0 {
                Scalar { raw: i64::MAX }
            } else if self.raw < 0 {
                Scalar { raw: i64::MIN }
            } else {
                Scalar { raw: 0 }
            }
        } else {
            Scalar { raw: saturate(quotient(self.raw * SCALE, other.raw as int)) }
        }
    }

    /// Saturating quotient, rounded toward zero. Dividing by zero gives the
    /// end of the range on the side of the dividend, and zero for `0 / 0`.
    #[verifier::when_used_as_spec(spec_div)]
    pub fn div(self, other: Scalar) -> (r: Scalar)
        ensures
            r == self.spec_div(other),
    {
        if other.raw == 0 {
            if self.raw > 0 {
                Scalar { raw: i64::MAX }
            } else if self.raw < 0 {
                Scalar { raw: i64::MIN }
            } else {
                Scalar { raw: 0 }
            }
        } else {
            let a: u128 = magnitude_of(self.raw) as u128;
            let b: u128 = magnitude_of(other.raw) as u128;
            let negative = (self.raw < 0) != (other.raw < 0);
            proof {
                lemma_product_magnitude(self.raw as int, SCALE as int);
            }
            let q: u128 = (a * 1_000_000_000u128) / b;
            Scalar { raw: signed(negative, q) }
        }
    }

    pub open spec fn spec_to_i32(self) -> i32 {
        saturate_i32(quotient(self.raw as int, SCALE as int))
    }

    /// The whole part of `self`, or the nearest 32-bit signed integer to it.
    #[verifier::when_used_as_spec(spec_to_i32)]
    pub fn to_i32(self) -> (r: i32)
        ensures
            r == self.spec_to_i32(),
    {
        let q: u64 = magnitude_of(self.raw) / (SCALE as u64);
        if self.raw < 0 {
            if q > 0x8000_0000u64 {
                i32::MIN
            } else {
                (-(q as i64)) as i32
            }
        } else if q > 0x7fff_ffffu64 {
            i32::MAX
        } else {
            q as i32
        }
    }

    pub open spec fn spec_to_u32(self) -> u32 {
        saturate_u32(quotient(self.raw as int, SCALE as int))
    }

    /// The whole part of `self`, or the nearest 32-bit unsigned integer to
    /// it: zero for every negative scalar.
    #[verifier::when_used_as_spec(spec_to_u32)]
    pub fn to_u32(self) -> (r: u32)
        ensures
            r == self.spec_to_u32(),
    {
        if self.raw < 0 {
            0
        } else {
            let q: u64 = magnitude_of(self.raw) / (SCALE as u64);
            if q > 0xffff_ffffu64 {
                u32::MAX
            } else {
                q as u32
            }
        }
    }
}

/// Whether `x` is representable, so that `saturate` leaves it as it is.
pub open spec fn in_range(x: int) -> bool {
    i64::MIN <= x <= i64::MAX
}

/// Rounding toward zero moves a quotient by less than one: `quotient(n, d)`
/// times `d` differs from `n` by less than `|d|`, and lies between zero and
/// `n`.
pub proof fn lemma_quotient_bounds(n: int, d: int)
    requires
        d != 0,
    ensures
        magnitude(n - quotient(n, d) * d) < magnitude(d),
        magnitude(quotient(n, d)) <= magnitude(n),
        quotient(n, d) * d == n <==> magnitude(n) % magnitude(d) == 0,
{
    let a = magnitude(n);
    let b = magnitude(d);
    let q = a / b;
    assert(a == b * q + a % b && 0 <= a % b < b) by (nonlinear_arith)
        requires
            b > 0,
            q == a / b,
    ;
    assert(0 <= q <= a) by (nonlinear_arith)
        requires
            b > 0,
            a >= 0,
            q == a / b,
    ;
    assert(q * b == b * q && (-q) * b == -(b * q) && q * (-b) == -(b * q) && (-q) * (-b) == b * q)
        by (nonlinear_arith);
}

/// Zero times anything is zero.
pub proof fn lemma_mul_zero(x: Scalar)
    ensures
        x.mul(Scalar::zero()) == Scalar::zero(),
        Scalar::zero().mul(x) == Scalar::zero(),
{
    assert(x.raw * 0 == 0);
    assert(0 * x.raw == 0);
    assert(0int / (SCALE as int) == 0);
}

/// One times anything leaves it as it is.
pub proof fn lemma_mul_one(x: Scalar)
    ensures
        x.mul(Scalar::one()) == x,
        Scalar::one().mul(x) == x,
{
    lemma_product_magnitude(x.raw as int, SCALE as int);
    lemma_product_magnitude(SCALE as int, x.raw as int);
    let m = magnitude(x.raw as int);
    assert((m * 1_000_000_000) / 1_000_000_000 == m);
    assert((1_000_000_000 * m) / 1_000_000_000 == m);
}

/// Anything but zero divided by itself is one, and zero divided by anything
/// is zero.
pub proof fn lemma_div_basics(x: Scalar)
    ensures
        x.raw != 0 ==> x.div(x) == Scalar::one(),
        Scalar::zero().div(x) == Scalar::zero(),
{
    if x.raw != 0 {
        lemma_product_magnitude(x.raw as int, SCALE as int);
        let m = magnitude(x.raw as int);
        assert((m * 1_000_000_000) / m == 1_000_000_000) by (nonlinear_arith)
            requires
                m > 0,
        ;
        assert(0 * SCALE == 0);
        assert(0int / m == 0) by (nonlinear_arith)
            requires
                m > 0,
        ;
    }
}

/// Twice a scalar is the scalar added to itself.
pub proof fn lemma_mul_two(x: Scalar)
    ensures
        Scalar::two().mul(x) == x.add(x),
{
    lemma_product_magnitude(2_000_000_000, x.raw as int);
    let m = magnitude(x.raw as int);
    assert((2_000_000_000 * m) / 1_000_000_000 == 2 * m);
}

/// The magnitude of a product is the product of the magnitudes, and the
/// product is negative exactly when it is not zero and the signs differ.
pub proof fn lemma_product_magnitude(a: int, b: int)
    ensures
        magnitude(a * b) == magnitude(a) * magnitude(b),
        (a * b < 0) <==> ((a < 0) != (b < 0) && a != 0 && b != 0),
{
    assert(magnitude(a * b) == magnitude(a) * magnitude(b)) by (nonlinear_arith);
    assert((a * b < 0) <==> ((a < 0) != (b < 0) && a != 0 && b != 0)) by (nonlinear_arith);
}

} // verus!
