//! Fixed-point scalar arithmetic.
//!
//! A [`Real`] stores a signed count of millionths of a unit, so every value
//! the planner works with is an exact rational with denominator
//! [`FP_SCALE`].  All operations are total: results that would leave the
//! mantissa range are saturated, and every contract states the exact
//! integer result.

use vstd::prelude::*;

verus! {

/// Fixed-point mantissa steps per unit: values are counts of millionths.
pub const FP_SCALE: i64 = 1_000_000;

/// The scale as a spec-level integer.
pub open spec fn fp_scale() -> int {
    1_000_000
}

/// Absolute value over unbounded integers.
pub open spec fn abs_int(x: int) -> int {
    if x < 0 {
        -x
    } else {
        x
    }
}

/// Clamp an unbounded integer into the `i64` range.
pub open spec fn sat64(x: int) -> int {
    if x > i64::MAX as int {
        i64::MAX as int
    } else if x < i64::MIN as int {
        i64::MIN as int
    } else {
        x
    }
}

/// Division rounding toward zero (machine-style), for a positive divisor.
pub open spec fn tdiv(a: int, b: int) -> int {
    if a >= 0 {
        a / b
    } else {
        -((-a) / b)
    }
}

/// Mantissa of a fixed-point product: (a/S)*(b/S) = (a*b/S)/S, truncated
/// toward zero and saturated.
pub open spec fn mul_mant(a: int, b: int) -> int {
    if (a < 0) != (b < 0) {
        sat64(-((abs_int(a) * abs_int(b)) / fp_scale()))
    } else {
        sat64((abs_int(a) * abs_int(b)) / fp_scale())
    }
}

/// Mantissa of a fixed-point quotient: (a/S)/(b/S) = (a*S/b)/S, truncated
/// toward zero and saturated.  Meaningful only for `b != 0`.
pub open spec fn div_mant(a: int, b: int) -> int {
    if (a < 0) != (b < 0) {
        sat64(-((abs_int(a) * fp_scale()) / abs_int(b)))
    } else {
        sat64((abs_int(a) * fp_scale()) / abs_int(b))
    }
}

/// `s` is the integer square root of `n`: the greatest integer whose square
/// does not exceed `n`.
pub open spec fn is_isqrt(n: int, s: int) -> bool {
    &&& 0 <= s
    &&& s * s <= n
    &&& n < (s + 1) * (s + 1)
}

/// The integer square root, as a function.
pub open spec fn isqrt_mant(n: int) -> int {
    choose|s: int| is_isqrt(n, s)
}

/// Powers of ten up to the fixed-point scale.
pub open spec fn spec_pow10(k: int) -> int {
    if k <= 0 {
        1
    } else if k == 1 {
        10
    } else if k == 2 {
        100
    } else if k == 3 {
        1000
    } else if k == 4 {
        10000
    } else if k == 5 {
        100000
    } else {
        1000000
    }
}

/// Mantissa a literal decimal denotes: `num` scaled by `10^(6-digits)`.
pub open spec fn from_lit_mant(num: int, digits: int) -> int {
    sat64(num * spec_pow10(6 - digits))
}

/// Mantissa rounded half-away-from-zero to a multiple of `m`.
pub open spec fn round_mult_mant(v: int, m: int) -> int {
    if v < 0 {
        sat64(-(((abs_int(v) + m / 2) / m) * m))
    } else {
        sat64(((v + m / 2) / m) * m)
    }
}

/// A fixed-point scalar: the value is `v / FP_SCALE` units.
#[derive(Clone, Copy, PartialEq, Eq, Structural, Debug)]
pub struct Real {
    pub v: i64,
}

/// Saturate an `i128` into the `i64` range.
pub(crate) fn sat_from_i128(x: i128) -> (r: i64)
    ensures
        r as int == sat64(x as int),
{
    if x > i64::MAX as i128 {
        i64::MAX
    } else if x < i64::MIN as i128 {
        i64::MIN
    } else {
        x as i64
    }
}

/// The absolute value of an `i64`, widened so that `i64::MIN` is exact.
pub(crate) fn abs_u128_of(x: i64) -> (r: u128)
    ensures
        r as int == abs_int(x as int),
{
    let xi: i128 = x as i128;
    if xi < 0 {
        (-xi) as u128
    } else {
        xi as u128
    }
}

/// The two squares around the candidate bound the argument: the integer
/// square root is unique.
pub proof fn lemma_isqrt_unique(n: int, a: int, b: int)
    requires
        is_isqrt(n, a),
        is_isqrt(n, b),
    ensures
        a == b,
{
    if a < b {
        assert((a + 1) * (a + 1) <= b * b) by (nonlinear_arith)
            requires
                0 <= a,
                0 <= b,
                a < b,
        ;
    }
    if b < a {
        assert((b + 1) * (b + 1) <= a * a) by (nonlinear_arith)
            requires
                0 <= a,
                0 <= b,
                b < a,
        ;
    }
}

/// A fixed-point quotient by a positive divisor is the exact rational
/// quotient to within one part of the divisor: `div_mant(x, n) * n`
/// differs from `x * S` by less than `n`.  (The magnitude bound keeps
/// the scaled numerator inside the saturation-free range.)
pub proof fn lemma_div_mant_accuracy(x: int, n: int)
    requires
        0 < n,
        abs_int(x) <= 1_500_000_000,
    ensures
        abs_int(div_mant(x, n) * n - x * fp_scale()) < n,
{
    let ax = abs_int(x);
    let num = ax * fp_scale();
    assert(0 <= num <= 1_500_000_000_000_000) by (nonlinear_arith)
        requires
            0 <= ax <= 1_500_000_000,
            num == ax * 1_000_000,
    ;
    let q = num / n;
    vstd::arithmetic::div_mod::lemma_fundamental_div_mod(num, n);
    vstd::arithmetic::div_mod::lemma_mod_bound(num, n);
    let rem = num % n;
    assert(0 <= q && q <= num) by (nonlinear_arith)
        requires
            num == n * q + rem,
            0 <= rem < n,
            1 <= n,
            0 <= num,
    ;
    assert(q * n == n * q) by (nonlinear_arith);
    if x >= 0 {
        assert(div_mant(x, n) == q);
        assert(abs_int(q * n - x * fp_scale()) < n);
    } else {
        assert(div_mant(x, n) == -q);
        assert(abs_int((-q) * n - x * fp_scale()) < n) by (nonlinear_arith)
            requires
                num == n * q + rem,
                0 <= rem < n,
                x * fp_scale() == -num,
        ;
    }
}

/// Largest scaled mantissa the square root accepts: above `i64::MAX`
/// millionths of a unit, scaled once more by the fixed-point scale.
pub const SQRT_ARG_MAX: u128 = 9_300_000_000_000_000_000_000_000;

/// Integer square root by bisection.
pub(crate) fn isqrt_u128(n: u128) -> (s: u128)
    requires
        n as int <= SQRT_ARG_MAX as int,
    ensures
        is_isqrt(n as int, s as int),
        s as int == isqrt_mant(n as int),
        s as int <= 3_100_000_000_000,
{
    let mut lo: u128 = 0;
    let mut hi: u128 = 3_100_000_000_001;
    proof {
        assert(3_100_000_000_001int * 3_100_000_000_001int > SQRT_ARG_MAX as int)
            by (nonlinear_arith);
    }
    while lo + 1 < hi
        invariant
            lo < hi,
            hi <= 3_100_000_000_001,
            lo as int * lo as int <= n as int,
            (n as int) < hi as int * hi as int,
        decreases hi as int - lo as int,
    {
        let mid: u128 = lo + (hi - lo) / 2;
        proof {
            assert(mid as int * mid as int <= 3_100_000_000_001int * 3_100_000_000_001int)
                by (nonlinear_arith)
                requires
                    0 <= mid as int <= 3_100_000_000_001int,
            ;
        }
        if mid * mid <= n {
            lo = mid;
        } else {
            hi = mid;
        }
    }
    proof {
        assert(is_isqrt(n as int, lo as int));
        let w = choose|s: int| is_isqrt(n as int, s);
        lemma_isqrt_unique(n as int, lo as int, w);
    }
    lo
}

/// Power of ten as an exec value.
pub(crate) fn pow10_i64(k: u32) -> (r: i64)
    requires
        k <= 6,
    ensures
        r as int == spec_pow10(k as int),
        1 <= r <= 1_000_000,
{
    if k == 0 {
        1
    } else if k == 1 {
        10
    } else if k == 2 {
        100
    } else if k == 3 {
        1000
    } else if k == 4 {
        10000
    } else if k == 5 {
        100000
    } else {
        1000000
    }
}

impl Real {
    /// The fixed-point mantissa as a spec integer.
    pub open spec fn m(self) -> int {
        self.v as int
    }

    /// Build a value from a decimal literal: `num` times `10^-digits` units.
    pub fn from_lit(num: i64, digits: u32) -> (r: Real)
        requires
            digits <= 6,
        ensures
            r.m() == from_lit_mant(num as int, digits as int),
    {
        let mult: i64 = pow10_i64(6 - digits);
        proof {
            assert(-9_300_000_000_000_000_000_000_000int <= num as int * mult as int
                <= 9_300_000_000_000_000_000_000_000int) by (nonlinear_arith)
                requires
                    i64::MIN as int <= num as int <= i64::MAX as int,
                    1 <= mult as int <= 1_000_000,
            ;
        }
        let wide: i128 = (num as i128) * (mult as i128);
        Real { v: sat_from_i128(wide) }
    }

    /// The additive identity.
    pub fn zero() -> (r: Real)
        ensures
            r.m() == 0,
    {
        Real { v: 0 }
    }

    /// The multiplicative identity.
    pub fn one() -> (r: Real)
        ensures
            r.m() == fp_scale(),
    {
        Real { v: FP_SCALE }
    }

    /// Whether the value is exactly zero.
    pub fn is_zero(&self) -> (r: bool)
        ensures
            r == (self.m() == 0),
    {
        self.v == 0
    }

    /// Whether the value is strictly negative.
    pub fn is_negative(&self) -> (r: bool)
        ensures
            r == (self.m() < 0),
    {
        self.v < 0
    }

    /// Strict order on values.
    pub fn lt(&self, o: &Real) -> (r: bool)
        ensures
            r == (self.m() < o.m()),
    {
        self.v < o.v
    }

    /// Non-strict order on values.
    pub fn le(&self, o: &Real) -> (r: bool)
        ensures
            r == (self.m() <= o.m()),
    {
        self.v <= o.v
    }

    /// Saturating sum.
    pub fn add_r(self, o: Real) -> (r: Real)
        ensures
            r.m() == sat64(self.m() + o.m()),
    {
        Real { v: sat_from_i128(self.v as i128 + o.v as i128) }
    }

    /// Saturating difference.
    pub fn sub_r(self, o: Real) -> (r: Real)
        ensures
            r.m() == sat64(self.m() - o.m()),
    {
        Real { v: sat_from_i128(self.v as i128 - o.v as i128) }
    }

    /// Saturating negation.
    pub fn neg_r(self) -> (r: Real)
        ensures
            r.m() == sat64(-self.m()),
    {
        Real { v: sat_from_i128(-(self.v as i128)) }
    }

    /// Saturating absolute value.
    pub fn abs_r(self) -> (r: Real)
        ensures
            r.m() == sat64(abs_int(self.m())),
    {
        if self.v < 0 {
            self.neg_r()
        } else {
            self
        }
    }

    /// Saturating fixed-point product, truncated toward zero.
    pub fn mul_r(self, o: Real) -> (r: Real)
        ensures
            r.m() == mul_mant(self.m(), o.m()),
    {
        let a: u128 = abs_u128_of(self.v);
        let b: u128 = abs_u128_of(o.v);
        proof {
            assert(a as int * b as int <= 0x8000_0000_0000_0000i128 as int * 0x8000_0000_0000_0000i128 as int)
                by (nonlinear_arith)
                requires
                    0 <= a as int <= 0x8000_0000_0000_0000i128 as int,
                    0 <= b as int <= 0x8000_0000_0000_0000i128 as int,
            ;
        }
        let p: u128 = (a * b) / (FP_SCALE as u128);
        assert(p <= a * b) by (nonlinear_arith)
            requires
                p == (a as int * b as int) / (FP_SCALE as u128 as int),
                0 <= a as int * b as int,
        ;
        let neg: bool = (self.v < 0) != (o.v < 0);
        if neg {
            Real { v: sat_from_i128(-(p as i128)) }
        } else {
            Real { v: sat_from_i128(p as i128) }
        }
    }

    /// Saturating fixed-point quotient, truncated toward zero.
    pub fn div_r(self, o: Real) -> (r: Real)
        requires
            o.m() != 0,
        ensures
            r.m() == div_mant(self.m(), o.m()),
    {
        let a: u128 = abs_u128_of(self.v);
        let b: u128 = abs_u128_of(o.v);
        proof {
            assert(a as int * (FP_SCALE as int) <= 0x8000_0000_0000_0000i128 as int * 1_000_000int)
                by (nonlinear_arith)
                requires
                    0 <= a as int <= 0x8000_0000_0000_0000i128 as int,
            ;
        }
        let p: u128 = (a * (FP_SCALE as u128)) / b;
        assert(p <= a * (FP_SCALE as u128)) by (nonlinear_arith)
            requires
                p == (a as int * (FP_SCALE as u128) as int) / (b as int),
                0 <= a as int * (FP_SCALE as u128) as int,
                b as int >= 1,
        ;
        let neg: bool = (self.v < 0) != (o.v < 0);
        if neg {
            Real { v: sat_from_i128(-(p as i128)) }
        } else {
            Real { v: sat_from_i128(p as i128) }
        }
    }

    /// Square root, or `None` on a negative value.  The result is the exact
    /// integer square root of the scaled mantissa.
    pub fn sqrt_r(self) -> (r: Option<Real>)
        ensures
            self.m() < 0 ==> r is None,
            self.m() >= 0 ==> r is Some && is_isqrt(self.m() * fp_scale(), r->0.m()),
            self.m() >= 0 ==> r->0.m() == isqrt_mant(self.m() * fp_scale()),
            self.m() >= 0 ==> r->0.m() >= 0,
    {
        if self.v < 0 {
            None
        } else {
            proof {
                assert(self.v as int * 1_000_000int <= SQRT_ARG_MAX as int) by (nonlinear_arith)
                    requires
                        0 <= self.v as int <= i64::MAX as int,
                ;
            }
            let n: u128 = (self.v as u128) * (FP_SCALE as u128);
            let s: u128 = isqrt_u128(n);
            Some(Real { v: s as i64 })
        }
    }

    /// Round to `digits` decimal places, half away from zero.
    pub fn rdp(&self, digits: u32) -> (r: Real)
        ensures
            digits >= 6 ==> r == *self,
            digits < 6 ==> r.m() == round_mult_mant(self.m(), spec_pow10(6 - digits)),
    {
        if digits >= 6 {
            *self
        } else {
            let md: i64 = pow10_i64(6 - digits);
            let m: u128 = md as u128;
            let a: u128 = abs_u128_of(self.v);
            let q: u128 = (a + m / 2) / m;
            proof {
                assert(q * m <= a + m / 2) by (nonlinear_arith)
                    requires
                        q == ((a as int + m as int / 2) / m as int),
                        1 <= m as int,
                        0 <= a as int,
                ;
            }
            let rounded: u128 = q * m;
            if self.v < 0 {
                Real { v: sat_from_i128(-(rounded as i128)) }
            } else {
                Real { v: sat_from_i128(rounded as i128) }
            }
        }
    }

    /// The integer part, truncated toward zero.
    pub fn to_i64(self) -> (r: i64)
        ensures
            r as int == tdiv(self.m(), fp_scale()),
    {
        let a: u128 = abs_u128_of(self.v);
        let q: u128 = a / (FP_SCALE as u128);
        proof {
            assert(q as int * 1_000_000int <= a as int && q as int <= 10_000_000_000_000int)
                by (nonlinear_arith)
                requires
                    q as int == a as int / 1_000_000int,
                    0 <= a as int <= 9_223_372_036_854_775_808int,
            ;
        }
        if self.v < 0 {
            -(q as i64)
        } else {
            q as i64
        }
    }

    /// The nearest integer, half away from zero.
    pub fn round_to_i64(self) -> (r: i64)
        ensures
            r as int == if self.m() < 0 {
                -((abs_int(self.m()) + fp_scale() / 2) / fp_scale())
            } else {
                (self.m() + fp_scale() / 2) / fp_scale()
            },
    {
        let a: u128 = abs_u128_of(self.v);
        let q: u128 = (a + (FP_SCALE as u128) / 2) / (FP_SCALE as u128);
        proof {
            assert(q as int * 1_000_000int <= a as int + 500_000int) by (nonlinear_arith)
                requires
                    q as int == (a as int + 500_000int) / 1_000_000int,
                    0 <= a as int,
            ;
            assert(q as int <= 10_000_000_000_000int) by (nonlinear_arith)
                requires
                    q as int * 1_000_000int <= a as int + 500_000int,
                    a as int <= 9_223_372_036_854_775_808int,
                    0 <= q as int,
            ;
        }
        if self.v < 0 {
            -(q as i64)
        } else {
            q as i64
        }
    }

    /// The larger of two values.
    pub fn max_r(self, o: Real) -> (r: Real)
        ensures
            r.m() == if self.m() < o.m() {
                o.m()
            } else {
                self.m()
            },
    {
        if self.v < o.v {
            o
        } else {
            self
        }
    }

    /// The smaller of two values.
    pub fn min_r(self, o: Real) -> (r: Real)
        ensures
            r.m() == if o.m() < self.m() {
                o.m()
            } else {
                self.m()
            },
    {
        if o.v < self.v {
            o
        } else {
            self
        }
    }
}

} // verus!
