//! Selective per-axis vector algebra.
//!
//! A [`TVector`] carries one optional scalar per logical axis (X, Y, Z, E).
//! An axis can be *undefined*, a first-class state distinct from zero that
//! means "this axis does not take part in the current operation"; binary
//! operations produce a defined axis only when both operands define it.
//! A [`CoordSel`] restricts an operation to a subset of the axes; axes
//! outside the selection are never modified.

use vstd::prelude::*;
use crate::fixed::{Real, FP_SCALE, sat64, abs_int, mul_mant, div_mant, isqrt_mant, is_isqrt,
    fp_scale, round_mult_mant, spec_pow10};

verus! {

/// A selection of axes: each flag says whether that axis takes part.
#[derive(Clone, Copy, PartialEq, Eq, Structural, Debug)]
pub struct CoordSel {
    pub x: bool,
    pub y: bool,
    pub z: bool,
    pub e: bool,
}

/// No axis selected.
pub open spec fn sel_empty() -> CoordSel {
    CoordSel { x: false, y: false, z: false, e: false }
}

/// Only the X axis.
pub open spec fn sel_x() -> CoordSel {
    CoordSel { x: true, y: false, z: false, e: false }
}

/// Only the Y axis.
pub open spec fn sel_y() -> CoordSel {
    CoordSel { x: false, y: true, z: false, e: false }
}

/// Only the Z axis.
pub open spec fn sel_z() -> CoordSel {
    CoordSel { x: false, y: false, z: true, e: false }
}

/// Only the extruder axis.
pub open spec fn sel_e() -> CoordSel {
    CoordSel { x: false, y: false, z: false, e: true }
}

/// The three positional axes.
pub open spec fn sel_xyz() -> CoordSel {
    CoordSel { x: true, y: true, z: true, e: false }
}

/// Every axis.
pub open spec fn sel_all() -> CoordSel {
    CoordSel { x: true, y: true, z: true, e: true }
}

impl CoordSel {
    /// No axis selected.
    pub fn empty() -> (r: CoordSel)
        ensures
            r == sel_empty(),
    {
        CoordSel { x: false, y: false, z: false, e: false }
    }

    /// Only the X axis.
    pub fn axis_x() -> (r: CoordSel)
        ensures
            r == sel_x(),
    {
        CoordSel { x: true, y: false, z: false, e: false }
    }

    /// Only the Y axis.
    pub fn axis_y() -> (r: CoordSel)
        ensures
            r == sel_y(),
    {
        CoordSel { x: false, y: true, z: false, e: false }
    }

    /// Only the Z axis.
    pub fn axis_z() -> (r: CoordSel)
        ensures
            r == sel_z(),
    {
        CoordSel { x: false, y: false, z: true, e: false }
    }

    /// Only the extruder axis.
    pub fn axis_e() -> (r: CoordSel)
        ensures
            r == sel_e(),
    {
        CoordSel { x: false, y: false, z: false, e: true }
    }

    /// The three positional axes.
    pub fn xyz() -> (r: CoordSel)
        ensures
            r == sel_xyz(),
    {
        CoordSel { x: true, y: true, z: true, e: false }
    }

    /// Every axis.
    pub fn all() -> (r: CoordSel)
        ensures
            r == sel_all(),
    {
        CoordSel { x: true, y: true, z: true, e: true }
    }

    /// Axes selected by either selection.
    pub fn union(self, o: CoordSel) -> (r: CoordSel)
        ensures
            r.x == (self.x || o.x),
            r.y == (self.y || o.y),
            r.z == (self.z || o.z),
            r.e == (self.e || o.e),
    {
        CoordSel { x: self.x || o.x, y: self.y || o.y, z: self.z || o.z, e: self.e || o.e }
    }

    /// Whether every axis of `o` is also selected here.
    pub fn contains(self, o: CoordSel) -> (r: bool)
        ensures
            r == ((o.x ==> self.x) && (o.y ==> self.y) && (o.z ==> self.z) && (o.e ==> self.e)),
    {
        (!o.x || self.x) && (!o.y || self.y) && (!o.z || self.z) && (!o.e || self.e)
    }
}

/// The capabilities the vector algebra needs of a scalar: identities, a zero
/// test, an absolute value, total (saturating) ring operations and a strict
/// order, each with a spec-level counterpart the executable method must
/// return exactly.
pub trait ArithmeticOps: Sized + Copy {
    /// The additive identity, at spec level.
    spec fn zero_spec() -> Self;

    /// The multiplicative identity, at spec level.
    spec fn one_spec() -> Self;

    /// Whether the value is the additive identity.
    spec fn is_zero_spec(self) -> bool;

    /// The absolute value, at spec level.
    spec fn abs_spec(self) -> Self;

    /// The (saturating) sum, at spec level.
    spec fn add_spec(self, o: Self) -> Self;

    /// The (saturating) difference, at spec level.
    spec fn sub_spec(self, o: Self) -> Self;

    /// The (saturating) product, at spec level.
    spec fn mul_spec(self, o: Self) -> Self;

    /// The strict order, at spec level.
    spec fn lt_spec(self, o: Self) -> bool;

    /// The additive identity.
    fn zero() -> (r: Self)
        ensures
            r == Self::zero_spec(),
    ;

    /// The multiplicative identity.
    fn one() -> (r: Self)
        ensures
            r == Self::one_spec(),
    ;

    /// Whether the value is the additive identity.
    fn is_zero(&self) -> (r: bool)
        ensures
            r == self.is_zero_spec(),
    ;

    /// The absolute value.
    fn abs(&self) -> (r: Self)
        ensures
            r == self.abs_spec(),
    ;

    /// The sum.
    fn addv(self, o: Self) -> (r: Self)
        ensures
            r == self.add_spec(o),
    ;

    /// The difference.
    fn subv(self, o: Self) -> (r: Self)
        ensures
            r == self.sub_spec(o),
    ;

    /// The product.
    fn mulv(self, o: Self) -> (r: Self)
        ensures
            r == self.mul_spec(o),
    ;

    /// The strict order.
    fn ltv(self, o: Self) -> (r: bool)
        ensures
            r == self.lt_spec(o),
    ;
}

/// The further capabilities distance and normalization need: integer powers,
/// a square root that may fail on negative values, rounding to decimal
/// places, and division.
pub trait RealOps: ArithmeticOps {
    /// The `p`-th power, at spec level.
    spec fn pow_spec(self, p: nat) -> Self;

    /// The square root, at spec level; `None` where it does not exist.
    spec fn sqrt_spec(self) -> Option<Self>;

    /// Rounding to `digits` decimal places, at spec level.
    spec fn rdp_spec(self, digits: u32) -> Self;

    /// The quotient, at spec level; meaningful only for a non-zero divisor.
    spec fn div_spec(self, o: Self) -> Self;

    /// The `power`-th power.
    fn pow(&self, power: i32) -> (r: Self)
        requires
            power >= 0,
        ensures
            r == self.pow_spec(power as nat),
    ;

    /// The square root, or `None` where it does not exist.
    fn sqrt(&self) -> (r: Option<Self>)
        ensures
            r == self.sqrt_spec(),
    ;

    /// Round to `digits` decimal places.
    fn rdp(&self, digits: u32) -> (r: Self)
        ensures
            r == self.rdp_spec(digits),
    ;

    /// The quotient.
    fn divr(self, o: Self) -> (r: Self)
        requires
            !o.is_zero_spec(),
        ensures
            r == self.div_spec(o),
    ;
}

/// Fixed-point power by repeated saturating multiplication.
pub open spec fn real_pow(x: Real, p: nat) -> Real
    decreases p,
{
    if p == 0 {
        Real { v: FP_SCALE }
    } else {
        Real { v: mul_mant(real_pow(x, (p - 1) as nat).m(), x.m()) as i64 }
    }
}

impl ArithmeticOps for Real {
    open spec fn zero_spec() -> Real {
        Real { v: 0 }
    }

    open spec fn one_spec() -> Real {
        Real { v: FP_SCALE }
    }

    open spec fn is_zero_spec(self) -> bool {
        self.v == 0
    }

    open spec fn abs_spec(self) -> Real {
        Real { v: sat64(abs_int(self.m())) as i64 }
    }

    open spec fn add_spec(self, o: Real) -> Real {
        Real { v: sat64(self.m() + o.m()) as i64 }
    }

    open spec fn sub_spec(self, o: Real) -> Real {
        Real { v: sat64(self.m() - o.m()) as i64 }
    }

    open spec fn mul_spec(self, o: Real) -> Real {
        Real { v: mul_mant(self.m(), o.m()) as i64 }
    }

    open spec fn lt_spec(self, o: Real) -> bool {
        self.m() < o.m()
    }

    fn zero() -> (r: Real) {
        Real::zero()
    }

    fn one() -> (r: Real) {
        Real::one()
    }

    fn is_zero(&self) -> (r: bool) {
        Real::is_zero(self)
    }

    fn abs(&self) -> (r: Real) {
        self.abs_r()
    }

    fn addv(self, o: Real) -> (r: Real) {
        self.add_r(o)
    }

    fn subv(self, o: Real) -> (r: Real) {
        self.sub_r(o)
    }

    fn mulv(self, o: Real) -> (r: Real) {
        self.mul_r(o)
    }

    fn ltv(self, o: Real) -> (r: bool) {
        self.v < o.v
    }
}

impl RealOps for Real {
    open spec fn pow_spec(self, p: nat) -> Real {
        real_pow(self, p)
    }

    open spec fn sqrt_spec(self) -> Option<Real> {
        if self.m() < 0 {
            None
        } else {
            Some(Real { v: isqrt_mant(self.m() * fp_scale()) as i64 })
        }
    }

    open spec fn rdp_spec(self, digits: u32) -> Real {
        if digits >= 6 {
            self
        } else {
            Real { v: round_mult_mant(self.m(), spec_pow10(6 - digits)) as i64 }
        }
    }

    open spec fn div_spec(self, o: Real) -> Real {
        Real { v: div_mant(self.m(), o.m()) as i64 }
    }

    fn pow(&self, power: i32) -> (r: Real) {
        let mut acc: Real = Real::one();
        let mut i: i32 = 0;
        while i < power
            invariant
                0 <= i <= power,
                acc == real_pow(*self, i as nat),
            decreases power - i,
        {
            acc = acc.mul_r(*self);
            i = i + 1;
        }
        acc
    }

    fn sqrt(&self) -> (r: Option<Real>) {
        self.sqrt_r()
    }

    fn rdp(&self, digits: u32) -> (r: Real) {
        Real::rdp(self, digits)
    }

    fn divr(self, o: Real) -> (r: Real) {
        self.div_r(o)
    }
}

/// Clamp an unbounded integer into `[lo, hi]`.
pub open spec fn sat_clamp(x: int, lo: int, hi: int) -> int {
    if x < lo {
        lo
    } else if x > hi {
        hi
    } else {
        x
    }
}

impl ArithmeticOps for i32 {
    open spec fn zero_spec() -> i32 {
        0
    }

    open spec fn one_spec() -> i32 {
        1
    }

    open spec fn is_zero_spec(self) -> bool {
        self == 0
    }

    open spec fn abs_spec(self) -> i32 {
        sat_clamp(abs_int(self as int), i32::MIN as int, i32::MAX as int) as i32
    }

    open spec fn add_spec(self, o: i32) -> i32 {
        sat_clamp(self as int + o as int, i32::MIN as int, i32::MAX as int) as i32
    }

    open spec fn sub_spec(self, o: i32) -> i32 {
        sat_clamp(self as int - o as int, i32::MIN as int, i32::MAX as int) as i32
    }

    open spec fn mul_spec(self, o: i32) -> i32 {
        sat_clamp(self as int * o as int, i32::MIN as int, i32::MAX as int) as i32
    }

    open spec fn lt_spec(self, o: i32) -> bool {
        self < o
    }

    fn zero() -> (r: i32) {
        0
    }

    fn one() -> (r: i32) {
        1
    }

    fn is_zero(&self) -> (r: bool) {
        *self == 0
    }

    fn abs(&self) -> (r: i32) {
        if *self == i32::MIN {
            i32::MAX
        } else if *self < 0 {
            -*self
        } else {
            *self
        }
    }

    fn addv(self, o: i32) -> (r: i32) {
        sat_i32(self as i64 + o as i64)
    }

    fn subv(self, o: i32) -> (r: i32) {
        sat_i32(self as i64 - o as i64)
    }

    fn mulv(self, o: i32) -> (r: i32) {
        proof {
            assert(-4_611_686_018_427_387_904 <= self as int * o as int
                <= 4_611_686_018_427_387_904) by (nonlinear_arith)
                requires
                    -2_147_483_648 <= self as int <= 2_147_483_647,
                    -2_147_483_648 <= o as int <= 2_147_483_647,
            ;
        }
        sat_i32((self as i64) * (o as i64))
    }

    fn ltv(self, o: i32) -> (r: bool) {
        self < o
    }
}

/// Saturate an `i64` into the `i32` range.
fn sat_i32(x: i64) -> (r: i32)
    ensures
        r as int == sat_clamp(x as int, i32::MIN as int, i32::MAX as int),
{
    if x < i32::MIN as i64 {
        i32::MIN
    } else if x > i32::MAX as i64 {
        i32::MAX
    } else {
        x as i32
    }
}

impl ArithmeticOps for u32 {
    open spec fn zero_spec() -> u32 {
        0
    }

    open spec fn one_spec() -> u32 {
        1
    }

    open spec fn is_zero_spec(self) -> bool {
        self == 0
    }

    open spec fn abs_spec(self) -> u32 {
        self
    }

    open spec fn add_spec(self, o: u32) -> u32 {
        sat_clamp(self as int + o as int, 0, u32::MAX as int) as u32
    }

    open spec fn sub_spec(self, o: u32) -> u32 {
        sat_clamp(self as int - o as int, 0, u32::MAX as int) as u32
    }

    open spec fn mul_spec(self, o: u32) -> u32 {
        sat_clamp(self as int * o as int, 0, u32::MAX as int) as u32
    }

    open spec fn lt_spec(self, o: u32) -> bool {
        self < o
    }

    fn zero() -> (r: u32) {
        0
    }

    fn one() -> (r: u32) {
        1
    }

    fn is_zero(&self) -> (r: bool) {
        *self == 0
    }

    fn abs(&self) -> (r: u32) {
        *self
    }

    fn addv(self, o: u32) -> (r: u32) {
        let s: u64 = self as u64 + o as u64;
        if s > u32::MAX as u64 {
            u32::MAX
        } else {
            s as u32
        }
    }

    fn subv(self, o: u32) -> (r: u32) {
        if self < o {
            0
        } else {
            self - o
        }
    }

    fn mulv(self, o: u32) -> (r: u32) {
        proof {
            assert(self as int * o as int <= 18_446_744_065_119_617_025) by (nonlinear_arith)
                requires
                    0 <= self as int <= 4_294_967_295,
                    0 <= o as int <= 4_294_967_295,
            ;
        }
        let s: u64 = (self as u64) * (o as u64);
        if s > u32::MAX as u64 {
            u32::MAX
        } else {
            s as u32
        }
    }

    fn ltv(self, o: u32) -> (r: bool) {
        self < o
    }
}

impl ArithmeticOps for u16 {
    open spec fn zero_spec() -> u16 {
        0
    }

    open spec fn one_spec() -> u16 {
        1
    }

    open spec fn is_zero_spec(self) -> bool {
        self == 0
    }

    open spec fn abs_spec(self) -> u16 {
        self
    }

    open spec fn add_spec(self, o: u16) -> u16 {
        sat_clamp(self as int + o as int, 0, u16::MAX as int) as u16
    }

    open spec fn sub_spec(self, o: u16) -> u16 {
        sat_clamp(self as int - o as int, 0, u16::MAX as int) as u16
    }

    open spec fn mul_spec(self, o: u16) -> u16 {
        sat_clamp(self as int * o as int, 0, u16::MAX as int) as u16
    }

    open spec fn lt_spec(self, o: u16) -> bool {
        self < o
    }

    fn zero() -> (r: u16) {
        0
    }

    fn one() -> (r: u16) {
        1
    }

    fn is_zero(&self) -> (r: bool) {
        *self == 0
    }

    fn abs(&self) -> (r: u16) {
        *self
    }

    fn addv(self, o: u16) -> (r: u16) {
        let s: u32 = self as u32 + o as u32;
        if s > u16::MAX as u32 {
            u16::MAX
        } else {
            s as u16
        }
    }

    fn subv(self, o: u16) -> (r: u16) {
        if self < o {
            0
        } else {
            self - o
        }
    }

    fn mulv(self, o: u16) -> (r: u16) {
        proof {
            assert(self as int * o as int <= 4_294_836_225) by (nonlinear_arith)
                requires
                    0 <= self as int <= 65_535,
                    0 <= o as int <= 65_535,
            ;
        }
        let s: u32 = (self as u32) * (o as u32);
        if s > u16::MAX as u32 {
            u16::MAX
        } else {
            s as u16
        }
    }

    fn ltv(self, o: u16) -> (r: bool) {
        self < o
    }
}

impl ArithmeticOps for u8 {
    open spec fn zero_spec() -> u8 {
        0
    }

    open spec fn one_spec() -> u8 {
        1
    }

    open spec fn is_zero_spec(self) -> bool {
        self == 0
    }

    open spec fn abs_spec(self) -> u8 {
        self
    }

    open spec fn add_spec(self, o: u8) -> u8 {
        sat_clamp(self as int + o as int, 0, u8::MAX as int) as u8
    }

    open spec fn sub_spec(self, o: u8) -> u8 {
        sat_clamp(self as int - o as int, 0, u8::MAX as int) as u8
    }

    open spec fn mul_spec(self, o: u8) -> u8 {
        sat_clamp(self as int * o as int, 0, u8::MAX as int) as u8
    }

    open spec fn lt_spec(self, o: u8) -> bool {
        self < o
    }

    fn zero() -> (r: u8) {
        0
    }

    fn one() -> (r: u8) {
        1
    }

    fn is_zero(&self) -> (r: bool) {
        *self == 0
    }

    fn abs(&self) -> (r: u8) {
        *self
    }

    fn addv(self, o: u8) -> (r: u8) {
        let s: u16 = self as u16 + o as u16;
        if s > u8::MAX as u16 {
            u8::MAX
        } else {
            s as u8
        }
    }

    fn subv(self, o: u8) -> (r: u8) {
        if self < o {
            0
        } else {
            self - o
        }
    }

    fn mulv(self, o: u8) -> (r: u8) {
        proof {
            assert(self as int * o as int <= 65_025) by (nonlinear_arith)
                requires
                    0 <= self as int <= 255,
                    0 <= o as int <= 255,
            ;
        }
        let s: u16 = (self as u16) * (o as u16);
        if s > u8::MAX as u16 {
            u8::MAX
        } else {
            s as u8
        }
    }

    fn ltv(self, o: u8) -> (r: bool) {
        self < o
    }
}

/// A four-axis vector whose axes are each either defined or undefined.
#[derive(Clone, Copy, Debug)]
pub struct TVector<T> {
    pub x: Option<T>,
    pub y: Option<T>,
    pub z: Option<T>,
    pub e: Option<T>,
}

/// The all-undefined vector.
pub open spec fn nan_spec<T>() -> TVector<T> {
    TVector { x: None, y: None, z: None, e: None }
}

/// A defined axis pair is summed; any undefined operand makes the result
/// axis undefined.
pub open spec fn add_axis<T: ArithmeticOps>(a: Option<T>, b: Option<T>) -> Option<T> {
    match (a, b) {
        (Some(p), Some(q)) => Some(p.add_spec(q)),
        _ => None,
    }
}

/// Per-axis difference with undefined propagation.
pub open spec fn sub_axis<T: ArithmeticOps>(a: Option<T>, b: Option<T>) -> Option<T> {
    match (a, b) {
        (Some(p), Some(q)) => Some(p.sub_spec(q)),
        _ => None,
    }
}

/// Per-axis product with undefined propagation.
pub open spec fn mul_axis<T: ArithmeticOps>(a: Option<T>, b: Option<T>) -> Option<T> {
    match (a, b) {
        (Some(p), Some(q)) => Some(p.mul_spec(q)),
        _ => None,
    }
}

/// Per-axis quotient: undefined when either side is undefined or the
/// divisor is zero — never a runtime fault.
pub open spec fn div_axis<T: RealOps>(a: Option<T>, b: Option<T>) -> Option<T> {
    match (a, b) {
        (Some(p), Some(q)) => if q.is_zero_spec() {
            None
        } else {
            Some(p.div_spec(q))
        },
        _ => None,
    }
}

/// Per-axis clamp: a defined axis keeps the value of smaller magnitude
/// between itself and the defined bound, carrying the axis' own sign;
/// an undefined bound leaves it unchanged, and an undefined axis stays
/// undefined.
pub open spec fn clamp_axis<T: ArithmeticOps>(a: Option<T>, b: Option<T>) -> Option<T> {
    match (a, b) {
        (Some(p), Some(q)) => if q.abs_spec().lt_spec(p.abs_spec()) {
            if p.lt_spec(T::zero_spec()) {
                Some(T::zero_spec().sub_spec(q.abs_spec()))
            } else {
                Some(q.abs_spec())
            }
        } else {
            Some(p)
        },
        (Some(p), None) => Some(p),
        (None, _) => None,
    }
}

/// Fold step for the maximum of the defined axes.
pub open spec fn merge_max<T: ArithmeticOps>(m: Option<T>, c: Option<T>) -> Option<T> {
    match (m, c) {
        (Some(p), Some(q)) => if p.lt_spec(q) {
            Some(q)
        } else {
            Some(p)
        },
        (Some(p), None) => Some(p),
        (None, q) => q,
    }
}

/// Fold step for the minimum of the defined axes.
pub open spec fn merge_min<T: ArithmeticOps>(m: Option<T>, c: Option<T>) -> Option<T> {
    match (m, c) {
        (Some(p), Some(q)) => if q.lt_spec(p) {
            Some(q)
        } else {
            Some(p)
        },
        (Some(p), None) => Some(p),
        (None, q) => q,
    }
}

/// The maximum among the defined axes, `None` on the all-undefined vector.
pub open spec fn vmax_spec<T: ArithmeticOps>(v: TVector<T>) -> Option<T> {
    merge_max(merge_max(merge_max(v.x, v.y), v.z), v.e)
}

/// The minimum among the defined axes, `None` on the all-undefined vector.
pub open spec fn vmin_spec<T: ArithmeticOps>(v: TVector<T>) -> Option<T> {
    merge_min(merge_min(merge_min(v.x, v.y), v.z), v.e)
}

/// A defined axis, or zero where undefined (used by the sum reduction only).
pub open spec fn axis_or_zero<T: ArithmeticOps>(a: Option<T>) -> T {
    match a {
        Some(v) => v,
        None => T::zero_spec(),
    }
}

/// The sum of the defined axes, undefined axes counting as zero.
pub open spec fn vsum_spec<T: ArithmeticOps>(v: TVector<T>) -> T {
    axis_or_zero(v.x).add_spec(axis_or_zero(v.y)).add_spec(axis_or_zero(v.z)).add_spec(
        axis_or_zero(v.e),
    )
}

/// Per-axis power, keeping undefined axes undefined.
pub open spec fn pow_axis<T: RealOps>(a: Option<T>, p: nat) -> Option<T> {
    match a {
        Some(v) => Some(v.pow_spec(p)),
        None => None,
    }
}

/// The vector of per-axis powers.
pub open spec fn vpow_spec<T: RealOps>(v: TVector<T>, p: nat) -> TVector<T> {
    TVector {
        x: pow_axis(v.x, p),
        y: pow_axis(v.y, p),
        z: pow_axis(v.z, p),
        e: pow_axis(v.e, p),
    }
}

/// The Euclidean norm of the defined axes: square root of the sum of
/// squares, undefined axes contributing zero.
pub open spec fn norm2_spec<T: RealOps>(v: TVector<T>) -> Option<T> {
    vsum_spec(vpow_spec(v, 2)).sqrt_spec()
}

/// Per-axis division by a scalar known to be non-zero.
pub open spec fn div_s_axis<T: RealOps>(a: Option<T>, d: T) -> Option<T> {
    match a {
        Some(v) => Some(v.div_spec(d)),
        None => None,
    }
}

/// Division of a whole vector by a scalar: a zero divisor yields the
/// all-undefined vector, never a fault.
pub open spec fn div_scalar_spec<T: RealOps>(v: TVector<T>, d: T) -> TVector<T> {
    if d.is_zero_spec() {
        nan_spec()
    } else {
        TVector {
            x: div_s_axis(v.x, d),
            y: div_s_axis(v.y, d),
            z: div_s_axis(v.z, d),
            e: div_s_axis(v.e, d),
        }
    }
}

/// The unit vector: the vector divided by its norm, or all-undefined when
/// the norm is zero or undefined.
pub open spec fn unit_spec<T: RealOps>(v: TVector<T>) -> TVector<T> {
    match norm2_spec(v) {
        None => nan_spec(),
        Some(n) => if n.is_zero_spec() {
            nan_spec()
        } else {
            div_scalar_spec(v, n)
        },
    }
}

/// Decomposition into (unit direction, norm): the all-undefined vector and
/// zero when the norm is zero or undefined, so a degenerate move can never
/// cause a division fault downstream.
pub open spec fn decompose_spec<T: RealOps>(v: TVector<T>) -> (TVector<T>, T) {
    match norm2_spec(v) {
        None => (nan_spec(), T::zero_spec()),
        Some(n) => if n.is_zero_spec() {
            (nan_spec(), T::zero_spec())
        } else {
            (div_scalar_spec(v, n), n)
        },
    }
}

/// Exec fold step for the maximum of defined axes.
fn merge_max_e<T: ArithmeticOps>(m: Option<T>, c: Option<T>) -> (r: Option<T>)
    ensures
        r == merge_max(m, c),
{
    match (m, c) {
        (Some(p), Some(q)) => if p.ltv(q) {
            Some(q)
        } else {
            Some(p)
        },
        (Some(p), None) => Some(p),
        (None, q) => q,
    }
}

/// Law: axis arithmetic propagates undefinedness — when either operand
/// leaves an axis undefined the result leaves it undefined, and division
/// by an undefined or zero axis is undefined, never a fault.
pub proof fn lemma_axis_undefined_propagation<T: RealOps>(a: Option<T>, b: Option<T>)
    ensures
        a is None || b is None ==> add_axis(a, b) is None && sub_axis(a, b) is None && mul_axis(
            a,
            b,
        ) is None && div_axis(a, b) is None,
        b matches Some(q) && q.is_zero_spec() ==> div_axis(a, b) is None,
{
}

/// Law: decomposing the all-zero vector (or the all-undefined vector)
/// yields the all-undefined direction and a zero norm — a degenerate
/// move can never divide by its vanishing length.
pub proof fn lemma_decompose_zero_vector(v: TVector<Real>)
    requires
        v.x matches Some(a) ==> a.m() == 0,
        v.y matches Some(a) ==> a.m() == 0,
        v.z matches Some(a) ==> a.m() == 0,
        v.e matches Some(a) ==> a.m() == 0,
    ensures
        decompose_spec(v) == (nan_spec::<Real>(), Real { v: 0 }),
{
    let z = Real { v: 0 };
    assert(real_pow(z, 0) == Real { v: FP_SCALE });
    assert(abs_int(real_pow(z, 0).m()) * abs_int(z.m()) == 0) by (nonlinear_arith)
        requires
            z.m() == 0,
    ;
    assert(mul_mant(real_pow(z, 0).m(), z.m()) == 0);
    assert(real_pow(z, 1) == z);
    assert(abs_int(z.m()) * abs_int(z.m()) == 0) by (nonlinear_arith)
        requires
            z.m() == 0,
    ;
    assert(mul_mant(z.m(), z.m()) == 0);
    assert(real_pow(z, 2) == z);
    let sq = vpow_spec(v, 2);
    assert(sq.x is Some ==> sq.x == Some(z));
    assert(sq.y is Some ==> sq.y == Some(z));
    assert(sq.z is Some ==> sq.z == Some(z));
    assert(sq.e is Some ==> sq.e == Some(z));
    assert(vsum_spec(sq).m() == 0);
    let s = vsum_spec(sq);
    assert(s.sqrt_spec() == Some(Real { v: isqrt_mant(0) as i64 }));
    assert(is_isqrt(0, 0));
    let w = choose|k: int| is_isqrt(0, k);
    crate::fixed::lemma_isqrt_unique(0, 0, w);
    assert(isqrt_mant(0) == 0);
}

/// Exec per-axis clamp step.
fn clamp_axis_e<T: ArithmeticOps>(a: Option<T>, b: Option<T>) -> (r: Option<T>)
    ensures
        r == clamp_axis(a, b),
{
    match (a, b) {
        (Some(p), Some(q)) => {
            let pa: T = p.abs();
            let qa: T = q.abs();
            if qa.ltv(pa) {
                if p.ltv(T::zero()) {
                    Some(T::zero().subv(qa))
                } else {
                    Some(qa)
                }
            } else {
                Some(p)
            }
        },
        (Some(p), None) => Some(p),
        (None, _) => None,
    }
}

/// Exec fold step for the minimum of defined axes.
fn merge_min_e<T: ArithmeticOps>(m: Option<T>, c: Option<T>) -> (r: Option<T>)
    ensures
        r == merge_min(m, c),
{
    match (m, c) {
        (Some(p), Some(q)) => if q.ltv(p) {
            Some(q)
        } else {
            Some(p)
        },
        (Some(p), None) => Some(p),
        (None, q) => q,
    }
}

impl<T: ArithmeticOps> TVector<T> {
    /// A new vector with every axis undefined.
    pub fn new() -> (r: TVector<T>)
        ensures
            r == nan_spec::<T>(),
    {
        Self::nan()
    }

    /// A vector from four optional axis values.
    pub fn from_coords(x: Option<T>, y: Option<T>, z: Option<T>, e: Option<T>) -> (r: TVector<T>)
        ensures
            r.x == x,
            r.y == y,
            r.z == z,
            r.e == e,
    {
        TVector { x, y, z, e }
    }

    /// The all-undefined vector.
    pub fn nan() -> (r: TVector<T>)
        ensures
            r == nan_spec::<T>(),
    {
        TVector { x: None, y: None, z: None, e: None }
    }

    /// The all-zero vector (every axis defined).
    pub fn zero() -> (r: TVector<T>)
        ensures
            r.x == Some(T::zero_spec()),
            r.y == Some(T::zero_spec()),
            r.z == Some(T::zero_spec()),
            r.e == Some(T::zero_spec()),
    {
        TVector { x: Some(T::zero()), y: Some(T::zero()), z: Some(T::zero()), e: Some(T::zero()) }
    }

    /// The all-one vector (every axis defined).
    pub fn one() -> (r: TVector<T>)
        ensures
            r.x == Some(T::one_spec()),
            r.y == Some(T::one_spec()),
            r.z == Some(T::one_spec()),
            r.e == Some(T::one_spec()),
    {
        TVector { x: Some(T::one()), y: Some(T::one()), z: Some(T::one()), e: Some(T::one()) }
    }

    /// Map every defined axis through `f`, which may turn the axis
    /// undefined; undefined axes stay undefined.
    pub fn map_coords<U: ArithmeticOps, F: Fn(T) -> Option<U>>(&self, f: F) -> (r: TVector<U>)
        requires
            forall|v: T| #[trigger] call_requires(f, (v,)),
        ensures
            (match self.x {
                Some(v) => call_ensures(f, (v,), r.x),
                None => r.x is None,
            }),
            (match self.y {
                Some(v) => call_ensures(f, (v,), r.y),
                None => r.y is None,
            }),
            (match self.z {
                Some(v) => call_ensures(f, (v,), r.z),
                None => r.z is None,
            }),
            (match self.e {
                Some(v) => call_ensures(f, (v,), r.e),
                None => r.e is None,
            }),
    {
        TVector {
            x: match self.x {
                Some(v) => f(v),
                None => None,
            },
            y: match self.y {
                Some(v) => f(v),
                None => None,
            },
            z: match self.z {
                Some(v) => f(v),
                None => None,
            },
            e: match self.e {
                Some(v) => f(v),
                None => None,
            },
        }
    }

    /// Map the selected, defined axes through `f` (which also receives the
    /// axis' selector); axes outside the selection are left unchanged.
    pub fn map_coord<F: Fn(T, CoordSel) -> Option<T>>(&self, coord_idx: CoordSel, f: F) -> (r:
        TVector<T>)
        requires
            forall|v: T, c: CoordSel| #[trigger] call_requires(f, (v, c)),
        ensures
            coord_idx.x ==> (match self.x {
                Some(v) => call_ensures(f, (v, sel_x()), r.x),
                None => r.x is None,
            }),
            !coord_idx.x ==> r.x == self.x,
            coord_idx.y ==> (match self.y {
                Some(v) => call_ensures(f, (v, sel_y()), r.y),
                None => r.y is None,
            }),
            !coord_idx.y ==> r.y == self.y,
            coord_idx.z ==> (match self.z {
                Some(v) => call_ensures(f, (v, sel_z()), r.z),
                None => r.z is None,
            }),
            !coord_idx.z ==> r.z == self.z,
            coord_idx.e ==> (match self.e {
                Some(v) => call_ensures(f, (v, sel_e()), r.e),
                None => r.e is None,
            }),
            !coord_idx.e ==> r.e == self.e,
    {
        TVector {
            x: if coord_idx.x {
                match self.x {
                    Some(v) => f(v, CoordSel::axis_x()),
                    None => None,
                }
            } else {
                self.x
            },
            y: if coord_idx.y {
                match self.y {
                    Some(v) => f(v, CoordSel::axis_y()),
                    None => None,
                }
            } else {
                self.y
            },
            z: if coord_idx.z {
                match self.z {
                    Some(v) => f(v, CoordSel::axis_z()),
                    None => None,
                }
            } else {
                self.z
            },
            e: if coord_idx.e {
                match self.e {
                    Some(v) => f(v, CoordSel::axis_e()),
                    None => None,
                }
            } else {
                self.e
            },
        }
    }

    /// Replace the selected axes by `val`; the others are left unchanged.
    pub fn with_coord(&self, coord_idx: CoordSel, val: Option<T>) -> (r: TVector<T>)
        ensures
            r.x == if coord_idx.x {
                val
            } else {
                self.x
            },
            r.y == if coord_idx.y {
                val
            } else {
                self.y
            },
            r.z == if coord_idx.z {
                val
            } else {
                self.z
            },
            r.e == if coord_idx.e {
                val
            } else {
                self.e
            },
    {
        TVector {
            x: if coord_idx.x {
                val
            } else {
                self.x
            },
            y: if coord_idx.y {
                val
            } else {
                self.y
            },
            z: if coord_idx.z {
                val
            } else {
                self.z
            },
            e: if coord_idx.e {
                val
            } else {
                self.e
            },
        }
    }

    /// Replace the selected axes that are currently defined by `val`;
    /// undefined or unselected axes are left unchanged.
    pub fn with_coord_if_set(&self, coord_idx: CoordSel, val: Option<T>) -> (r: TVector<T>)
        ensures
            r.x == if coord_idx.x && self.x is Some {
                val
            } else {
                self.x
            },
            r.y == if coord_idx.y && self.y is Some {
                val
            } else {
                self.y
            },
            r.z == if coord_idx.z && self.z is Some {
                val
            } else {
                self.z
            },
            r.e == if coord_idx.e && self.e is Some {
                val
            } else {
                self.e
            },
    {
        TVector {
            x: if coord_idx.x && self.x.is_some() {
                val
            } else {
                self.x
            },
            y: if coord_idx.y && self.y.is_some() {
                val
            } else {
                self.y
            },
            z: if coord_idx.z && self.z.is_some() {
                val
            } else {
                self.z
            },
            e: if coord_idx.e && self.e.is_some() {
                val
            } else {
                self.e
            },
        }
    }

    /// Set the selected axes to `val` in place; the others keep their value.
    pub fn set_coord(&mut self, coord_idx: CoordSel, val: Option<T>)
        ensures
            final(self).x == if coord_idx.x {
                val
            } else {
                old(self).x
            },
            final(self).y == if coord_idx.y {
                val
            } else {
                old(self).y
            },
            final(self).z == if coord_idx.z {
                val
            } else {
                old(self).z
            },
            final(self).e == if coord_idx.e {
                val
            } else {
                old(self).e
            },
    {
        if coord_idx.x {
            self.x = val;
        }
        if coord_idx.y {
            self.y = val;
        }
        if coord_idx.z {
            self.z = val;
        }
        if coord_idx.e {
            self.e = val;
        }
    }

    /// Copy the selected axes from `other` in place; the others keep their
    /// value.
    pub fn assign(&mut self, coord_idx: CoordSel, other: &TVector<T>)
        ensures
            final(self).x == if coord_idx.x {
                other.x
            } else {
                old(self).x
            },
            final(self).y == if coord_idx.y {
                other.y
            } else {
                old(self).y
            },
            final(self).z == if coord_idx.z {
                other.z
            } else {
                old(self).z
            },
            final(self).e == if coord_idx.e {
                other.e
            } else {
                old(self).e
            },
    {
        if coord_idx.x {
            self.x = other.x;
        }
        if coord_idx.y {
            self.y = other.y;
        }
        if coord_idx.z {
            self.z = other.z;
        }
        if coord_idx.e {
            self.e = other.e;
        }
    }

    /// Copy the selected axes from `other` where the source axis is
    /// defined; everything else keeps its value.
    pub fn assign_if_set(&mut self, coord_idx: CoordSel, other: &TVector<T>)
        ensures
            final(self).x == if coord_idx.x && other.x is Some {
                other.x
            } else {
                old(self).x
            },
            final(self).y == if coord_idx.y && other.y is Some {
                other.y
            } else {
                old(self).y
            },
            final(self).z == if coord_idx.z && other.z is Some {
                other.z
            } else {
                old(self).z
            },
            final(self).e == if coord_idx.e && other.e is Some {
                other.e
            } else {
                old(self).e
            },
    {
        if coord_idx.x && other.x.is_some() {
            self.x = other.x;
        }
        if coord_idx.y && other.y.is_some() {
            self.y = other.y;
        }
        if coord_idx.z && other.z.is_some() {
            self.z = other.z;
        }
        if coord_idx.e && other.e.is_some() {
            self.e = other.e;
        }
    }

    /// Clamp the selected, defined axes against the scalar bound: each
    /// keeps the value of smaller magnitude between itself and the bound,
    /// carrying its own sign; the others are left unchanged.
    pub fn clamp_coord(&self, coord_idx: CoordSel, upper_bound: T) -> (r: TVector<T>)
        ensures
            r.x == if coord_idx.x {
                clamp_axis(self.x, Some(upper_bound))
            } else {
                self.x
            },
            r.y == if coord_idx.y {
                clamp_axis(self.y, Some(upper_bound))
            } else {
                self.y
            },
            r.z == if coord_idx.z {
                clamp_axis(self.z, Some(upper_bound))
            } else {
                self.z
            },
            r.e == if coord_idx.e {
                clamp_axis(self.e, Some(upper_bound))
            } else {
                self.e
            },
    {
        TVector {
            x: if coord_idx.x {
                clamp_axis_e(self.x, Some(upper_bound))
            } else {
                self.x
            },
            y: if coord_idx.y {
                clamp_axis_e(self.y, Some(upper_bound))
            } else {
                self.y
            },
            z: if coord_idx.z {
                clamp_axis_e(self.z, Some(upper_bound))
            } else {
                self.z
            },
            e: if coord_idx.e {
                clamp_axis_e(self.e, Some(upper_bound))
            } else {
                self.e
            },
        }
    }

    /// Clamp each defined axis against the corresponding defined axis of
    /// `rhs`, keeping the value of smaller magnitude with the axis' own
    /// sign; an axis `rhs` does not define is left unchanged, and an axis
    /// this vector does not define stays undefined.
    pub fn clamp(&self, rhs: TVector<T>) -> (r: TVector<T>)
        ensures
            r.x == clamp_axis(self.x, rhs.x),
            r.y == clamp_axis(self.y, rhs.y),
            r.z == clamp_axis(self.z, rhs.z),
            r.e == clamp_axis(self.e, rhs.e),
    {
        TVector {
            x: clamp_axis_e(self.x, rhs.x),
            y: clamp_axis_e(self.y, rhs.y),
            z: clamp_axis_e(self.z, rhs.z),
            e: clamp_axis_e(self.e, rhs.e),
        }
    }

    /// The maximum among the defined axes.
    pub fn max(&self) -> (r: Option<T>)
        ensures
            r == vmax_spec(*self),
    {
        let m0: Option<T> = self.x;
        let m1: Option<T> = merge_max_e(m0, self.y);
        let m2: Option<T> = merge_max_e(m1, self.z);
        merge_max_e(m2, self.e)
    }

    /// The minimum among the defined axes.
    pub fn min(&self) -> (r: Option<T>)
        ensures
            r == vmin_spec(*self),
    {
        let m0: Option<T> = self.x;
        let m1: Option<T> = merge_min_e(m0, self.y);
        let m2: Option<T> = merge_min_e(m1, self.z);
        merge_min_e(m2, self.e)
    }

    /// Give every undefined axis the value `value`; defined axes keep
    /// theirs.
    pub fn map_nan(&self, value: T) -> (r: TVector<T>)
        ensures
            r.x == if self.x is Some {
                self.x
            } else {
                Some(value)
            },
            r.y == if self.y is Some {
                self.y
            } else {
                Some(value)
            },
            r.z == if self.z is Some {
                self.z
            } else {
                Some(value)
            },
            r.e == if self.e is Some {
                self.e
            } else {
                Some(value)
            },
    {
        TVector {
            x: match self.x {
                Some(v) => Some(v),
                None => Some(value),
            },
            y: match self.y {
                Some(v) => Some(v),
                None => Some(value),
            },
            z: match self.z {
                Some(v) => Some(v),
                None => Some(value),
            },
            e: match self.e {
                Some(v) => Some(v),
                None => Some(value),
            },
        }
    }

    /// Replace every defined axis by `value`; undefined axes stay
    /// undefined.
    pub fn map_val(&self, value: T) -> (r: TVector<T>)
        ensures
            r.x == if self.x is Some {
                Some(value)
            } else {
                None::<T>
            },
            r.y == if self.y is Some {
                Some(value)
            } else {
                None::<T>
            },
            r.z == if self.z is Some {
                Some(value)
            } else {
                None::<T>
            },
            r.e == if self.e is Some {
                Some(value)
            } else {
                None::<T>
            },
    {
        TVector {
            x: match self.x {
                Some(_) => Some(value),
                None => None,
            },
            y: match self.y {
                Some(_) => Some(value),
                None => None,
            },
            z: match self.z {
                Some(_) => Some(value),
                None => None,
            },
            e: match self.e {
                Some(_) => Some(value),
                None => None,
            },
        }
    }

    /// The sum of the defined axes, undefined axes counting as zero.
    pub fn sum(&self) -> (r: T)
        ensures
            r == vsum_spec(*self),
    {
        let x: T = match self.x {
            Some(v) => v,
            None => T::zero(),
        };
        let y: T = match self.y {
            Some(v) => v,
            None => T::zero(),
        };
        let z: T = match self.z {
            Some(v) => v,
            None => T::zero(),
        };
        let e: T = match self.e {
            Some(v) => v,
            None => T::zero(),
        };
        x.addv(y).addv(z).addv(e)
    }

    /// Per-axis absolute value; undefined axes stay undefined.
    pub fn abs(&self) -> (r: TVector<T>)
        ensures
            r.x == (match self.x {
                Some(v) => Some(v.abs_spec()),
                None => None::<T>,
            }),
            r.y == (match self.y {
                Some(v) => Some(v.abs_spec()),
                None => None::<T>,
            }),
            r.z == (match self.z {
                Some(v) => Some(v.abs_spec()),
                None => None::<T>,
            }),
            r.e == (match self.e {
                Some(v) => Some(v.abs_spec()),
                None => None::<T>,
            }),
    {
        TVector {
            x: match self.x {
                Some(v) => Some(v.abs()),
                None => None,
            },
            y: match self.y {
                Some(v) => Some(v.abs()),
                None => None,
            },
            z: match self.z {
                Some(v) => Some(v.abs()),
                None => None,
            },
            e: match self.e {
                Some(v) => Some(v.abs()),
                None => None,
            },
        }
    }

    /// Component-wise sum with undefined propagation.
    pub fn vadd(&self, rhs: &TVector<T>) -> (r: TVector<T>)
        ensures
            r.x == add_axis(self.x, rhs.x),
            r.y == add_axis(self.y, rhs.y),
            r.z == add_axis(self.z, rhs.z),
            r.e == add_axis(self.e, rhs.e),
    {
        TVector {
            x: match (self.x, rhs.x) {
                (Some(p), Some(q)) => Some(p.addv(q)),
                _ => None,
            },
            y: match (self.y, rhs.y) {
                (Some(p), Some(q)) => Some(p.addv(q)),
                _ => None,
            },
            z: match (self.z, rhs.z) {
                (Some(p), Some(q)) => Some(p.addv(q)),
                _ => None,
            },
            e: match (self.e, rhs.e) {
                (Some(p), Some(q)) => Some(p.addv(q)),
                _ => None,
            },
        }
    }

    /// Component-wise difference with undefined propagation.
    pub fn vsub(&self, rhs: &TVector<T>) -> (r: TVector<T>)
        ensures
            r.x == sub_axis(self.x, rhs.x),
            r.y == sub_axis(self.y, rhs.y),
            r.z == sub_axis(self.z, rhs.z),
            r.e == sub_axis(self.e, rhs.e),
    {
        TVector {
            x: match (self.x, rhs.x) {
                (Some(p), Some(q)) => Some(p.subv(q)),
                _ => None,
            },
            y: match (self.y, rhs.y) {
                (Some(p), Some(q)) => Some(p.subv(q)),
                _ => None,
            },
            z: match (self.z, rhs.z) {
                (Some(p), Some(q)) => Some(p.subv(q)),
                _ => None,
            },
            e: match (self.e, rhs.e) {
                (Some(p), Some(q)) => Some(p.subv(q)),
                _ => None,
            },
        }
    }

    /// Component-wise product with undefined propagation.
    pub fn vmul(&self, rhs: &TVector<T>) -> (r: TVector<T>)
        ensures
            r.x == mul_axis(self.x, rhs.x),
            r.y == mul_axis(self.y, rhs.y),
            r.z == mul_axis(self.z, rhs.z),
            r.e == mul_axis(self.e, rhs.e),
    {
        TVector {
            x: match (self.x, rhs.x) {
                (Some(p), Some(q)) => Some(p.mulv(q)),
                _ => None,
            },
            y: match (self.y, rhs.y) {
                (Some(p), Some(q)) => Some(p.mulv(q)),
                _ => None,
            },
            z: match (self.z, rhs.z) {
                (Some(p), Some(q)) => Some(p.mulv(q)),
                _ => None,
            },
            e: match (self.e, rhs.e) {
                (Some(p), Some(q)) => Some(p.mulv(q)),
                _ => None,
            },
        }
    }

    /// Multiply every defined axis by the scalar `rhs`.
    pub fn mul_scalar(&self, rhs: T) -> (r: TVector<T>)
        ensures
            r.x == (match self.x {
                Some(v) => Some(v.mul_spec(rhs)),
                None => None::<T>,
            }),
            r.y == (match self.y {
                Some(v) => Some(v.mul_spec(rhs)),
                None => None::<T>,
            }),
            r.z == (match self.z {
                Some(v) => Some(v.mul_spec(rhs)),
                None => None::<T>,
            }),
            r.e == (match self.e {
                Some(v) => Some(v.mul_spec(rhs)),
                None => None::<T>,
            }),
    {
        TVector {
            x: match self.x {
                Some(v) => Some(v.mulv(rhs)),
                None => None,
            },
            y: match self.y {
                Some(v) => Some(v.mulv(rhs)),
                None => None,
            },
            z: match self.z {
                Some(v) => Some(v.mulv(rhs)),
                None => None,
            },
            e: match self.e {
                Some(v) => Some(v.mulv(rhs)),
                None => None,
            },
        }
    }
}

impl<T: RealOps> TVector<T> {
    /// Per-axis power; undefined axes stay undefined.
    pub fn pow(&self, power: i32) -> (r: TVector<T>)
        requires
            power >= 0,
        ensures
            r == vpow_spec(*self, power as nat),
    {
        TVector {
            x: match self.x {
                Some(v) => Some(v.pow(power)),
                None => None,
            },
            y: match self.y {
                Some(v) => Some(v.pow(power)),
                None => None,
            },
            z: match self.z {
                Some(v) => Some(v.pow(power)),
                None => None,
            },
            e: match self.e {
                Some(v) => Some(v.pow(power)),
                None => None,
            },
        }
    }

    /// Per-axis square root; an axis with no real root becomes undefined.
    pub fn sqrt(&self) -> (r: TVector<T>)
        ensures
            r.x == (match self.x {
                Some(v) => v.sqrt_spec(),
                None => None::<T>,
            }),
            r.y == (match self.y {
                Some(v) => v.sqrt_spec(),
                None => None::<T>,
            }),
            r.z == (match self.z {
                Some(v) => v.sqrt_spec(),
                None => None::<T>,
            }),
            r.e == (match self.e {
                Some(v) => v.sqrt_spec(),
                None => None::<T>,
            }),
    {
        TVector {
            x: match self.x {
                Some(v) => v.sqrt(),
                None => None,
            },
            y: match self.y {
                Some(v) => v.sqrt(),
                None => None,
            },
            z: match self.z {
                Some(v) => v.sqrt(),
                None => None,
            },
            e: match self.e {
                Some(v) => v.sqrt(),
                None => None,
            },
        }
    }

    /// The Euclidean norm of the defined axes.
    pub fn norm2(&self) -> (r: Option<T>)
        ensures
            r == norm2_spec(*self),
    {
        self.pow(2).sum().sqrt()
    }

    /// Divide every defined axis by the scalar `rhs`; a zero divisor
    /// yields the all-undefined vector, never a fault.
    pub fn div_scalar(&self, rhs: T) -> (r: TVector<T>)
        ensures
            r == div_scalar_spec(*self, rhs),
    {
        if rhs.is_zero() {
            Self::nan()
        } else {
            TVector {
                x: match self.x {
                    Some(v) => Some(v.divr(rhs)),
                    None => None,
                },
                y: match self.y {
                    Some(v) => Some(v.divr(rhs)),
                    None => None,
                },
                z: match self.z {
                    Some(v) => Some(v.divr(rhs)),
                    None => None,
                },
                e: match self.e {
                    Some(v) => Some(v.divr(rhs)),
                    None => None,
                },
            }
        }
    }

    /// Component-wise quotient: an axis is defined only when both operands
    /// define it and the divisor axis is non-zero.
    pub fn vdiv(&self, rhs: &TVector<T>) -> (r: TVector<T>)
        ensures
            r.x == div_axis(self.x, rhs.x),
            r.y == div_axis(self.y, rhs.y),
            r.z == div_axis(self.z, rhs.z),
            r.e == div_axis(self.e, rhs.e),
    {
        TVector {
            x: match (self.x, rhs.x) {
                (Some(p), Some(q)) => if q.is_zero() {
                    None
                } else {
                    Some(p.divr(q))
                },
                _ => None,
            },
            y: match (self.y, rhs.y) {
                (Some(p), Some(q)) => if q.is_zero() {
                    None
                } else {
                    Some(p.divr(q))
                },
                _ => None,
            },
            z: match (self.z, rhs.z) {
                (Some(p), Some(q)) => if q.is_zero() {
                    None
                } else {
                    Some(p.divr(q))
                },
                _ => None,
            },
            e: match (self.e, rhs.e) {
                (Some(p), Some(q)) => if q.is_zero() {
                    None
                } else {
                    Some(p.divr(q))
                },
                _ => None,
            },
        }
    }

    /// The unit vector, or all-undefined when the norm is zero or
    /// undefined.
    pub fn unit(&self) -> (r: TVector<T>)
        ensures
            r == unit_spec(*self),
    {
        match self.norm2() {
            None => Self::nan(),
            Some(norm) => if norm.is_zero() {
                Self::nan()
            } else {
                self.div_scalar(norm)
            },
        }
    }

    /// Split into (unit direction, norm); the zero or all-undefined vector
    /// yields (all-undefined, zero) rather than a division fault.
    pub fn decompose_normal(&self) -> (r: (TVector<T>, T))
        ensures
            r == decompose_spec(*self),
    {
        match self.norm2() {
            None => (Self::nan(), T::zero()),
            Some(norm) => if norm.is_zero() {
                (Self::nan(), T::zero())
            } else {
                (self.div_scalar(norm), norm)
            },
        }
    }

    /// Round every defined axis to `digits` decimal places.
    pub fn rdp(&self, digits: u32) -> (r: TVector<T>)
        ensures
            r.x == (match self.x {
                Some(v) => Some(v.rdp_spec(digits)),
                None => None::<T>,
            }),
            r.y == (match self.y {
                Some(v) => Some(v.rdp_spec(digits)),
                None => None::<T>,
            }),
            r.z == (match self.z {
                Some(v) => Some(v.rdp_spec(digits)),
                None => None::<T>,
            }),
            r.e == (match self.e {
                Some(v) => Some(v.rdp_spec(digits)),
                None => None::<T>,
            }),
    {
        TVector {
            x: match self.x {
                Some(v) => Some(v.rdp(digits)),
                None => None,
            },
            y: match self.y {
                Some(v) => Some(v.rdp(digits)),
                None => None,
            },
            z: match self.z {
                Some(v) => Some(v.rdp(digits)),
                None => None,
            },
            e: match self.e {
                Some(v) => Some(v.rdp(digits)),
                None => None,
            },
        }
    }
}

} // verus!
