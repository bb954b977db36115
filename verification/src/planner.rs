//! Jerk-limited S-curve velocity profiles.
//!
//! A profile is an ordered list of time phases, each with a duration, a
//! start velocity, a constant start acceleration and a constant jerk.  All
//! quantities are fixed-point mantissas (see [`crate::fixed`]), so the
//! integral of each phase is an exact integer and every profile invariant
//! is an exact integer statement:
//!
//! * velocity at offset `tau` into a phase, scaled by `2*S^3`:
//!   `2*v0*S^2 + 2*a0*tau*S + j*tau^2`;
//! * acceleration at offset `tau`, scaled by `S^2`: `a0*S + j*tau`;
//! * displacement of a whole phase, scaled by `6*S^4`:
//!   `6*v0*t*S^2 + 3*a0*t^2*S + j*t^3`.
//!
//! The generator computes candidate phases with saturating fixed-point
//! arithmetic and then *checks* the assembled profile against the
//! well-formedness predicate [`SCurveMotionProfile::wf`] with exact
//! integer arithmetic; a profile is returned only when the check passed,
//! so every returned profile provably covers the requested distance
//! within tolerance, keeps velocity inside `[0, v_max]` and is continuous
//! at phase boundaries.

use vstd::prelude::*;
use crate::fixed::{Real, abs_int, fp_scale};

verus! {

/// Largest mantissa magnitude the planner accepts for distances,
/// velocities, accelerations, jerks and phase durations (1500 units).
/// Keeping planned quantities inside this range lets every profile
/// integral be evaluated exactly in 128-bit arithmetic.
pub const PLAN_LIMIT: i64 = 1_500_000_000;

/// Displacement tolerance, as a mantissa (0.01 unit): a profile is
/// accepted when its integrated displacement is within this of the
/// requested distance.
pub const DISP_TOL: i64 = 10_000;

/// The fixed-point scale squared, as a spec integer.
pub open spec fn fs2() -> int {
    1_000_000_000_000
}

/// The fixed-point scale cubed, as a spec integer.
pub open spec fn fs3() -> int {
    1_000_000_000_000_000_000
}

/// Scalar limits already projected onto one move's direction.
#[derive(Clone, Copy, PartialEq, Eq, Structural, Debug)]
pub struct Constraints {
    /// Maximum velocity of the move.
    pub v_max: Real,
    /// Maximum acceleration magnitude of the move.
    pub a_max: Real,
    /// Maximum jerk magnitude of the move.
    pub j_max: Real,
}

impl Constraints {
    /// Valid limits: all three strictly positive and inside the planning
    /// range.
    pub open spec fn wf(self) -> bool {
        &&& 0 < self.v_max.m() <= PLAN_LIMIT as int
        &&& 0 < self.a_max.m() <= PLAN_LIMIT as int
        &&& 0 < self.j_max.m() <= PLAN_LIMIT as int
    }

    /// Exec check of [`Constraints::wf`].
    pub fn check(&self) -> (r: bool)
        ensures
            r == self.wf(),
    {
        0 < self.v_max.v && self.v_max.v <= PLAN_LIMIT && 0 < self.a_max.v && self.a_max.v
            <= PLAN_LIMIT && 0 < self.j_max.v && self.j_max.v <= PLAN_LIMIT
    }
}

/// One time phase: for `t` time units the motion starts at velocity `v0`
/// with acceleration `a0`, and the acceleration changes at the constant
/// jerk `j`.
#[derive(Clone, Copy, PartialEq, Eq, Structural, Debug)]
pub struct Phase {
    /// Duration of the phase.
    pub t: Real,
    /// Velocity at the start of the phase.
    pub v0: Real,
    /// Acceleration at the start of the phase.
    pub a0: Real,
    /// Constant jerk applied through the phase.
    pub j: Real,
}

/// Every mantissa of the phase lies in the planning range.
pub open spec fn phase_bounded(p: Phase) -> bool {
    &&& 0 <= p.t.m() <= PLAN_LIMIT as int
    &&& abs_int(p.v0.m()) <= PLAN_LIMIT as int
    &&& abs_int(p.a0.m()) <= PLAN_LIMIT as int
    &&& abs_int(p.j.m()) <= PLAN_LIMIT as int
}

/// Velocity at offset `tau` into the phase, scaled by `2*S^3`.
pub open spec fn v2_at(p: Phase, tau: int) -> int {
    2 * p.v0.m() * fs2() + 2 * (p.a0.m() * tau) * fp_scale() + p.j.m() * (tau * tau)
}

/// Velocity at the end of the phase, scaled by `2*S^3`.
pub open spec fn v2_end(p: Phase) -> int {
    v2_at(p, p.t.m())
}

/// Acceleration at offset `tau` into the phase, scaled by `S^2`.
pub open spec fn a1_at(p: Phase, tau: int) -> int {
    p.a0.m() * fp_scale() + p.j.m() * tau
}

/// Acceleration at the end of the phase, scaled by `S^2`.
pub open spec fn a1_end(p: Phase) -> int {
    a1_at(p, p.t.m())
}

/// Displacement of the whole phase, scaled by `6*S^4`.
pub open spec fn d6(p: Phase) -> int {
    6 * (p.v0.m() * p.t.m()) * fs2() + 3 * ((p.a0.m() * p.t.m()) * p.t.m()) * fp_scale() + p.j.m()
        * ((p.t.m() * p.t.m()) * p.t.m())
}

/// A cruise phase: no acceleration, no jerk, positive duration.
pub open spec fn is_cruise(p: Phase) -> bool {
    p.j.m() == 0 && p.a0.m() == 0 && p.t.m() > 0
}

/// The phase's acceleration keeps one sign throughout, so its velocity is
/// monotone: non-decreasing where the sign is non-negative, non-increasing
/// where it is non-positive.
pub open spec fn phase_monotone_sign(p: Phase) -> bool {
    (p.a0.m() >= 0 && a1_end(p) >= 0) || (p.a0.m() <= 0 && a1_end(p) <= 0)
}

/// A phase acceptable under the limits `c`.
pub open spec fn phase_wf(p: Phase, c: Constraints) -> bool {
    &&& phase_bounded(p)
    &&& 0 <= p.v0.m() <= c.v_max.m()
    &&& abs_int(p.a0.m()) <= c.a_max.m()
    &&& (p.j.m() == 0 || p.j.m() == c.j_max.m() || p.j.m() == -c.j_max.m())
    &&& abs_int(p.j.m()) <= c.j_max.m()
    &&& 0 <= v2_end(p) <= 2 * c.v_max.m() * fs2()
    &&& abs_int(a1_end(p)) <= c.a_max.m() * fp_scale()
    &&& phase_monotone_sign(p)
}

/// Sum of the scaled phase displacements.
pub open spec fn d6_sum(s: Seq<Phase>) -> int
    decreases s.len(),
{
    if s.len() == 0 {
        0
    } else {
        d6_sum(s.drop_last()) + d6(s.last())
    }
}

/// Sum of the scaled displacements of the non-cruise phases.
pub open spec fn d6_sum_noncruise(s: Seq<Phase>) -> int
    decreases s.len(),
{
    if s.len() == 0 {
        0
    } else {
        d6_sum_noncruise(s.drop_last()) + if is_cruise(s.last()) {
            0
        } else {
            d6(s.last())
        }
    }
}

/// Whether any phase of the sequence is a cruise phase.
pub open spec fn has_cruise(s: Seq<Phase>) -> bool {
    exists|k: int| 0 <= k < s.len() && is_cruise(#[trigger] s[k])
}

/// End-velocity tolerance, as a mantissa: the exit velocity is matched to
/// within a few acceleration- and jerk-quanta accumulated by duration
/// rounding.
pub open spec fn vel_tol(c: Constraints) -> int {
    16 + 16 * (c.a_max.m() / fp_scale()) + 16 * (c.j_max.m() / fp_scale())
}

/// Exec value of [`vel_tol`].
pub fn vel_tol_e(c: &Constraints) -> (r: i64)
    requires
        c.wf(),
    ensures
        r as int == vel_tol(*c),
        0 < r <= 48_016,
{
    let ta: u64 = (c.a_max.v as u64) / 1_000_000;
    let tj: u64 = (c.j_max.v as u64) / 1_000_000;
    (16 + 16 * ta + 16 * tj) as i64
}

/// The failures the profile generator reports.
#[derive(Clone, Copy, PartialEq, Eq, Structural, Debug)]
pub enum ProfileError {
    /// The request itself is malformed: negative distance, a boundary
    /// velocity outside `[0, v_max]`, or limits that are not strictly
    /// positive or not inside the planning range.
    InvalidInput,
    /// The numeric reduction could not produce a profile meeting the
    /// tolerances; the move is reported rather than planned wrongly.
    NonConvergence,
}

/// A complete jerk-limited velocity profile for one move, together with
/// the request it answers.
#[derive(Clone, Debug)]
pub struct SCurveMotionProfile {
    /// The ordered time phases.
    pub phases: Vec<Phase>,
    /// The requested travel distance.
    pub distance: Real,
    /// The entry velocity.
    pub v_in: Real,
    /// The exit velocity.
    pub v_out: Real,
    /// The limits the profile honours.
    pub constraints: Constraints,
}

impl SCurveMotionProfile {
    /// Well-formedness: the profile honours the limits phase by phase, is
    /// continuous across phase boundaries, starts exactly at the entry
    /// velocity with zero acceleration, ends at the exit velocity and at
    /// zero acceleration within the fixed-point tolerances, and its exact
    /// integrated displacement matches the requested distance within
    /// [`DISP_TOL`].  A cruise phase may appear only when the ramps alone
    /// do not cover the distance.
    pub open spec fn wf(self) -> bool {
        let ph = self.phases@;
        let n = ph.len() as int;
        &&& self.constraints.wf()
        &&& 0 <= self.v_in.m() <= self.constraints.v_max.m()
        &&& 0 <= self.v_out.m() <= self.constraints.v_max.m()
        &&& 0 <= self.distance.m() <= PLAN_LIMIT as int
        &&& ph.len() <= 16
        &&& (forall|i: int| 0 <= i < n ==> phase_wf(#[trigger] ph[i], self.constraints))
        &&& (n == 0 ==> self.distance.m() <= DISP_TOL as int && self.v_in == self.v_out)
        &&& (n > 0 ==> ph[0].v0 == self.v_in)
        &&& (n > 0 ==> ph[0].a0.m() == 0)
        &&& (n > 0 ==> abs_int(v2_end(ph[n - 1]) - 2 * self.v_out.m() * fs2()) <= 2 * vel_tol(
            self.constraints,
        ) * fs2())
        &&& (n > 0 ==> abs_int(a1_end(ph[n - 1])) <= self.constraints.j_max.m())
        &&& (forall|i: int|
            0 <= i < n - 1 ==> abs_int(
                v2_end(#[trigger] ph[i]) - 2 * ph[i + 1].v0.m() * fs2(),
            ) <= 2 * fs2())
        &&& (forall|i: int|
            0 <= i < n - 1 ==> abs_int(
                a1_end(#[trigger] ph[i]) - ph[i + 1].a0.m() * fp_scale(),
            ) <= self.constraints.j_max.m())
        &&& abs_int(d6_sum(ph) - 6 * self.distance.m() * fs3()) <= 6 * DISP_TOL as int * fs3()
        &&& (has_cruise(ph) ==> d6_sum_noncruise(ph) <= 6 * self.distance.m() * fs3())
    }
}

/// Magnitudes stay bounded under multiplication.
pub proof fn lemma_mul_abs_le(x: int, y: int, bx: int, by: int)
    requires
        abs_int(x) <= bx,
        abs_int(y) <= by,
    ensures
        abs_int(x * y) <= bx * by,
        x * y <= bx * by,
        -(bx * by) <= x * y,
{
    assert(abs_int(x * y) <= bx * by && x * y <= bx * by && -(bx * by) <= x * y)
        by (nonlinear_arith)
        requires
            abs_int(x) <= bx,
            abs_int(y) <= by,
    ;
}

/// Exact scaled displacement of one phase.
pub(crate) fn phase_d6(p: &Phase) -> (r: i128)
    requires
        phase_bounded(*p),
    ensures
        r as int == d6(*p),
        abs_int(r as int) <= 5_100_000_000_000_000_000_000_000_000_000_000_000,
{
    let t: i128 = p.t.v as i128;
    let v0: i128 = p.v0.v as i128;
    let a0: i128 = p.a0.v as i128;
    let j: i128 = p.j.v as i128;
    proof {
        lemma_mul_abs_le(v0 as int, t as int, PLAN_LIMIT as int, PLAN_LIMIT as int);
    }
    let vt: i128 = v0 * t;
    proof {
        lemma_mul_abs_le(6, vt as int, 6, 2_250_000_000_000_000_000);
    }
    let svt: i128 = 6 * vt;
    proof {
        lemma_mul_abs_le(svt as int, 1_000_000_000_000, 13_500_000_000_000_000_000, 1_000_000_000_000);
    }
    let term1: i128 = svt * 1_000_000_000_000;
    proof {
        lemma_mul_abs_le(a0 as int, t as int, PLAN_LIMIT as int, PLAN_LIMIT as int);
    }
    let at: i128 = a0 * t;
    proof {
        lemma_mul_abs_le(at as int, t as int, 2_250_000_000_000_000_000, PLAN_LIMIT as int);
    }
    let att: i128 = at * t;
    proof {
        lemma_mul_abs_le(3, att as int, 3, 3_375_000_000_000_000_000_000_000_000);
    }
    let satt: i128 = 3 * att;
    proof {
        lemma_mul_abs_le(
            satt as int,
            1_000_000,
            10_125_000_000_000_000_000_000_000_000,
            1_000_000,
        );
    }
    let term2: i128 = satt * 1_000_000;
    proof {
        lemma_mul_abs_le(t as int, t as int, PLAN_LIMIT as int, PLAN_LIMIT as int);
    }
    let tt: i128 = t * t;
    proof {
        lemma_mul_abs_le(tt as int, t as int, 2_250_000_000_000_000_000, PLAN_LIMIT as int);
    }
    let ttt: i128 = tt * t;
    proof {
        lemma_mul_abs_le(
            j as int,
            ttt as int,
            PLAN_LIMIT as int,
            3_375_000_000_000_000_000_000_000_000,
        );
    }
    let term3: i128 = j * ttt;
    term1 + term2 + term3
}

/// Exact scaled velocity at the end of one phase.
pub(crate) fn phase_v2_end(p: &Phase) -> (r: i128)
    requires
        phase_bounded(*p),
    ensures
        r as int == v2_end(*p),
        abs_int(r as int) <= 10_000_000_000_000_000_000_000_000_000,
{
    let t: i128 = p.t.v as i128;
    let v0: i128 = p.v0.v as i128;
    let a0: i128 = p.a0.v as i128;
    let j: i128 = p.j.v as i128;
    proof {
        lemma_mul_abs_le(2, v0 as int, 2, PLAN_LIMIT as int);
        lemma_mul_abs_le(2 * (v0 as int), 1_000_000_000_000, 3_000_000_000, 1_000_000_000_000);
    }
    let term1: i128 = (2 * v0) * 1_000_000_000_000;
    proof {
        lemma_mul_abs_le(a0 as int, t as int, PLAN_LIMIT as int, PLAN_LIMIT as int);
        lemma_mul_abs_le(2, (a0 as int) * (t as int), 2, 2_250_000_000_000_000_000);
        lemma_mul_abs_le(
            2 * ((a0 as int) * (t as int)),
            1_000_000,
            4_500_000_000_000_000_000,
            1_000_000,
        );
    }
    let at: i128 = a0 * t;
    let term2: i128 = (2 * at) * 1_000_000;
    proof {
        lemma_mul_abs_le(t as int, t as int, PLAN_LIMIT as int, PLAN_LIMIT as int);
        lemma_mul_abs_le(j as int, (t as int) * (t as int), PLAN_LIMIT as int, 2_250_000_000_000_000_000);
    }
    let tt: i128 = t * t;
    let term3: i128 = j * tt;
    term1 + term2 + term3
}

/// Exact scaled acceleration at the end of one phase.
pub(crate) fn phase_a1_end(p: &Phase) -> (r: i128)
    requires
        phase_bounded(*p),
    ensures
        r as int == a1_end(*p),
        abs_int(r as int) <= 4_000_000_000_000_000_000,
{
    let t: i128 = p.t.v as i128;
    let a0: i128 = p.a0.v as i128;
    let j: i128 = p.j.v as i128;
    proof {
        lemma_mul_abs_le(a0 as int, 1_000_000, PLAN_LIMIT as int, 1_000_000);
        lemma_mul_abs_le(j as int, t as int, PLAN_LIMIT as int, PLAN_LIMIT as int);
    }
    a0 * 1_000_000 + j * t
}

/// Displacement of the first `tau` time units of a phase, scaled by
/// `6*S^4`.
pub open spec fn d6_at(p: Phase, tau: int) -> int {
    6 * (p.v0.m() * tau) * fs2() + 3 * ((p.a0.m() * tau) * tau) * fp_scale() + p.j.m() * ((tau
        * tau) * tau)
}

/// Exact scaled velocity at offset `tau` into a phase.
pub(crate) fn phase_v2_at(p: &Phase, tau: i64) -> (r: i128)
    requires
        phase_bounded(*p),
        0 <= tau <= p.t.m(),
    ensures
        r as int == v2_at(*p, tau as int),
        abs_int(r as int) <= 10_000_000_000_000_000_000_000_000_000,
{
    let t: i128 = tau as i128;
    let v0: i128 = p.v0.v as i128;
    let a0: i128 = p.a0.v as i128;
    let j: i128 = p.j.v as i128;
    proof {
        lemma_mul_abs_le(2, v0 as int, 2, PLAN_LIMIT as int);
        lemma_mul_abs_le(2 * (v0 as int), 1_000_000_000_000, 3_000_000_000, 1_000_000_000_000);
        lemma_mul_abs_le(a0 as int, t as int, PLAN_LIMIT as int, PLAN_LIMIT as int);
        lemma_mul_abs_le(2, (a0 as int) * (t as int), 2, 2_250_000_000_000_000_000);
        lemma_mul_abs_le(
            2 * ((a0 as int) * (t as int)),
            1_000_000,
            4_500_000_000_000_000_000,
            1_000_000,
        );
        lemma_mul_abs_le(t as int, t as int, PLAN_LIMIT as int, PLAN_LIMIT as int);
        lemma_mul_abs_le(
            j as int,
            (t as int) * (t as int),
            PLAN_LIMIT as int,
            2_250_000_000_000_000_000,
        );
    }
    let term1: i128 = (2 * v0) * 1_000_000_000_000;
    let at: i128 = a0 * t;
    let term2: i128 = (2 * at) * 1_000_000;
    let tt: i128 = t * t;
    let term3: i128 = j * tt;
    term1 + term2 + term3
}

/// Exact scaled acceleration at offset `tau` into a phase.
pub(crate) fn phase_a1_at(p: &Phase, tau: i64) -> (r: i128)
    requires
        phase_bounded(*p),
        0 <= tau <= p.t.m(),
    ensures
        r as int == a1_at(*p, tau as int),
        abs_int(r as int) <= 4_000_000_000_000_000_000,
{
    let t: i128 = tau as i128;
    let a0: i128 = p.a0.v as i128;
    let j: i128 = p.j.v as i128;
    proof {
        lemma_mul_abs_le(a0 as int, 1_000_000, PLAN_LIMIT as int, 1_000_000);
        lemma_mul_abs_le(j as int, t as int, PLAN_LIMIT as int, PLAN_LIMIT as int);
    }
    a0 * 1_000_000 + j * t
}

/// Exact scaled displacement of the first `tau` time units of a phase.
pub(crate) fn phase_d6_at(p: &Phase, tau: i64) -> (r: i128)
    requires
        phase_bounded(*p),
        0 <= tau <= p.t.m(),
    ensures
        r as int == d6_at(*p, tau as int),
        abs_int(r as int) <= 5_100_000_000_000_000_000_000_000_000_000_000_000,
{
    let t: i128 = tau as i128;
    let v0: i128 = p.v0.v as i128;
    let a0: i128 = p.a0.v as i128;
    let j: i128 = p.j.v as i128;
    proof {
        lemma_mul_abs_le(v0 as int, t as int, PLAN_LIMIT as int, PLAN_LIMIT as int);
    }
    let vt: i128 = v0 * t;
    proof {
        lemma_mul_abs_le(6, vt as int, 6, 2_250_000_000_000_000_000);
    }
    let svt: i128 = 6 * vt;
    proof {
        lemma_mul_abs_le(
            svt as int,
            1_000_000_000_000,
            13_500_000_000_000_000_000,
            1_000_000_000_000,
        );
    }
    let term1: i128 = svt * 1_000_000_000_000;
    proof {
        lemma_mul_abs_le(a0 as int, t as int, PLAN_LIMIT as int, PLAN_LIMIT as int);
    }
    let at: i128 = a0 * t;
    proof {
        lemma_mul_abs_le(at as int, t as int, 2_250_000_000_000_000_000, PLAN_LIMIT as int);
    }
    let att: i128 = at * t;
    proof {
        lemma_mul_abs_le(3, att as int, 3, 3_375_000_000_000_000_000_000_000_000);
    }
    let satt: i128 = 3 * att;
    proof {
        lemma_mul_abs_le(
            satt as int,
            1_000_000,
            10_125_000_000_000_000_000_000_000_000,
            1_000_000,
        );
    }
    let term2: i128 = satt * 1_000_000;
    proof {
        lemma_mul_abs_le(t as int, t as int, PLAN_LIMIT as int, PLAN_LIMIT as int);
    }
    let tt: i128 = t * t;
    proof {
        lemma_mul_abs_le(tt as int, t as int, 2_250_000_000_000_000_000, PLAN_LIMIT as int);
    }
    let ttt: i128 = tt * t;
    proof {
        lemma_mul_abs_le(
            j as int,
            ttt as int,
            PLAN_LIMIT as int,
            3_375_000_000_000_000_000_000_000_000,
        );
    }
    let term3: i128 = j * ttt;
    term1 + term2 + term3
}

/// Exec check of [`phase_wf`].
pub(crate) fn check_phase(p: &Phase, c: &Constraints) -> (r: bool)
    requires
        c.wf(),
    ensures
        r == phase_wf(*p, *c),
{
    let bounded: bool = 0 <= p.t.v && p.t.v <= PLAN_LIMIT && -PLAN_LIMIT <= p.v0.v && p.v0.v
        <= PLAN_LIMIT && -PLAN_LIMIT <= p.a0.v && p.a0.v <= PLAN_LIMIT && -PLAN_LIMIT <= p.j.v
        && p.j.v <= PLAN_LIMIT;
    if !bounded {
        return false;
    }
    if !(0 <= p.v0.v && p.v0.v <= c.v_max.v) {
        return false;
    }
    if !(-c.a_max.v <= p.a0.v && p.a0.v <= c.a_max.v) {
        return false;
    }
    if !(p.j.v == 0 || p.j.v == c.j_max.v || p.j.v == -c.j_max.v) {
        return false;
    }
    if !(-c.j_max.v <= p.j.v && p.j.v <= c.j_max.v) {
        return false;
    }
    let v2e: i128 = phase_v2_end(p);
    proof {
        lemma_mul_abs_le(2 * c.v_max.m(), fs2(), 3_000_000_000, 1_000_000_000_000);
    }
    let vcap: i128 = (2 * (c.v_max.v as i128)) * 1_000_000_000_000;
    if !(0 <= v2e && v2e <= vcap) {
        return false;
    }
    let a1e: i128 = phase_a1_end(p);
    proof {
        lemma_mul_abs_le(c.a_max.m(), fp_scale(), PLAN_LIMIT as int, 1_000_000);
    }
    let acap: i128 = (c.a_max.v as i128) * 1_000_000;
    if !(-acap <= a1e && a1e <= acap) {
        return false;
    }
    if !((p.a0.v >= 0 && a1e >= 0) || (p.a0.v <= 0 && a1e <= 0)) {
        return false;
    }
    true
}

/// Exec check of the whole well-formedness predicate
/// [`SCurveMotionProfile::wf`]: the generator returns a profile only when
/// this verified validator accepted it.
#[verifier::loop_isolation(false)]
#[verifier::rlimit(100)]
#[verifier::spinoff_prover]
pub fn check_profile(p: &SCurveMotionProfile) -> (r: bool)
    ensures
        r == p.wf(),
{
    let ghost ph = p.phases@;
    if !p.constraints.check() {
        return false;
    }
    if !(0 <= p.v_in.v && p.v_in.v <= p.constraints.v_max.v) {
        return false;
    }
    if !(0 <= p.v_out.v && p.v_out.v <= p.constraints.v_max.v) {
        return false;
    }
    if !(0 <= p.distance.v && p.distance.v <= PLAN_LIMIT) {
        return false;
    }
    let n: usize = p.phases.len();
    if n > 16 {
        return false;
    }
    if n == 0 {
        return p.distance.v <= DISP_TOL && p.v_in.v == p.v_out.v;
    }
    let first: Phase = p.phases[0];
    if !(first.v0.v == p.v_in.v && first.a0.v == 0) {
        return false;
    }
    let mut i: usize = 0;
    let mut dsum: i128 = 0;
    let mut ncsum: i128 = 0;
    let mut cruising: bool = false;
    while i < n
        invariant
            p.constraints.wf(),
            n == ph.len(),
            n <= 16,
            0 <= i <= n,
            forall|k: int| 0 <= k < i ==> phase_wf(#[trigger] ph[k], p.constraints),
            forall|k: int|
                0 <= k < i && k < n - 1 ==> abs_int(
                    v2_end(#[trigger] ph[k]) - 2 * ph[k + 1].v0.m() * fs2(),
                ) <= 2 * fs2(),
            forall|k: int|
                0 <= k < i && k < n - 1 ==> abs_int(
                    a1_end(#[trigger] ph[k]) - ph[k + 1].a0.m() * fp_scale(),
                ) <= p.constraints.j_max.m(),
            dsum as int == d6_sum(ph.take(i as int)),
            ncsum as int == d6_sum_noncruise(ph.take(i as int)),
            cruising == has_cruise(ph.take(i as int)),
            abs_int(dsum as int) <= i * 5_100_000_000_000_000_000_000_000_000_000_000_000,
            abs_int(ncsum as int) <= i * 5_100_000_000_000_000_000_000_000_000_000_000_000,
        decreases n - i,
    {
        let cur: Phase = p.phases[i];
        if !check_phase(&cur, &p.constraints) {
            return false;
        }
        if i + 1 < n {
            let nxt: Phase = p.phases[i + 1];
            let v2e: i128 = phase_v2_end(&cur);
            proof {
                lemma_mul_abs_le(
                    2 * nxt.v0.m(),
                    fs2(),
                    18_446_744_073_709_551_616,
                    1_000_000_000_000,
                );
            }
            let vnext: i128 = (2 * (nxt.v0.v as i128)) * 1_000_000_000_000;
            let dv: i128 = v2e - vnext;
            if !(-2_000_000_000_000 <= dv && dv <= 2_000_000_000_000) {
                return false;
            }
            let a1e: i128 = phase_a1_end(&cur);
            proof {
                lemma_mul_abs_le(nxt.a0.m(), fp_scale(), 9_223_372_036_854_775_808, 1_000_000);
            }
            let anext: i128 = (nxt.a0.v as i128) * 1_000_000;
            let da: i128 = a1e - anext;
            let jcap: i128 = p.constraints.j_max.v as i128;
            if !(-jcap <= da && da <= jcap) {
                return false;
            }
        }
        let dph: i128 = phase_d6(&cur);
        let is_cr: bool = cur.j.v == 0 && cur.a0.v == 0 && cur.t.v > 0;
        proof {
            assert(ph.take(i + 1 as int).drop_last() =~= ph.take(i as int));
            assert(ph.take(i + 1 as int).last() == ph[i as int]);
        }
        dsum = dsum + dph;
        if is_cr {
            cruising = true;
        } else {
            ncsum = ncsum + dph;
        }
        i = i + 1;
    }
    proof {
        assert(ph.take(n as int) =~= ph);
    }
    proof {
        lemma_mul_abs_le(6 * p.distance.m(), fs3(), 9_000_000_000, 1_000_000_000_000_000_000);
    }
    let target: i128 = (6 * (p.distance.v as i128)) * 1_000_000_000_000_000_000;
    let ddiff: i128 = dsum - target;
    let dtol: i128 = 60_000_000_000_000_000_000_000;
    proof {
        assert(6 * DISP_TOL as int * fs3() == 60_000_000_000_000_000_000_000int);
    }
    if !(-dtol <= ddiff && ddiff <= dtol) {
        return false;
    }
    if cruising && !(ncsum <= target) {
        return false;
    }
    let last: Phase = p.phases[n - 1];
    let v2e: i128 = phase_v2_end(&last);
    proof {
        lemma_mul_abs_le(2 * p.v_out.m(), fs2(), 3_000_000_000, 1_000_000_000_000);
    }
    let vend: i128 = (2 * (p.v_out.v as i128)) * 1_000_000_000_000;
    let vtol: i64 = vel_tol_e(&p.constraints);
    proof {
        lemma_mul_abs_le(2 * vel_tol(p.constraints), fs2(), 96_032, 1_000_000_000_000);
    }
    let vtolsc: i128 = (2 * (vtol as i128)) * 1_000_000_000_000;
    let dvend: i128 = v2e - vend;
    if !(-vtolsc <= dvend && dvend <= vtolsc) {
        return false;
    }
    let a1e: i128 = phase_a1_end(&last);
    let jcap: i128 = p.constraints.j_max.v as i128;
    if !(-jcap <= a1e && a1e <= jcap) {
        return false;
    }
    true
}

/// The request is malformed: negative or out-of-range distance, a boundary
/// velocity outside `[0, v_max]`, or limits that are not valid.
pub open spec fn invalid_input(d: Real, v_in: Real, v_out: Real, c: Constraints) -> bool {
    ||| d.m() < 0
    ||| d.m() > PLAN_LIMIT as int
    ||| v_in.m() < 0
    ||| v_out.m() < 0
    ||| v_in.m() > c.v_max.m()
    ||| v_out.m() > c.v_max.m()
    ||| !c.wf()
}

/// The stored start velocity of the phase after `p`: the exact end
/// velocity of `p` rounded down to the fixed-point grid and clamped into
/// the planning range.
fn next_v0(p: &Phase) -> (r: Real)
    requires
        phase_bounded(*p),
    ensures
        0 <= r.m() <= PLAN_LIMIT as int,
{
    let v2e: i128 = phase_v2_end(p);
    if v2e <= 0 {
        Real { v: 0 }
    } else {
        let q: u128 = (v2e as u128) / 2_000_000_000_000;
        if q > PLAN_LIMIT as u128 {
            Real { v: PLAN_LIMIT }
        } else {
            Real { v: q as i64 }
        }
    }
}

/// The stored start acceleration of the phase after `p`: the exact end
/// acceleration of `p` rounded toward zero and clamped into the planning
/// range.
fn next_a0(p: &Phase) -> (r: Real)
    requires
        phase_bounded(*p),
    ensures
        abs_int(r.m()) <= PLAN_LIMIT as int,
{
    let a1e: i128 = phase_a1_end(p);
    if a1e >= 0 {
        let q: u128 = (a1e as u128) / 1_000_000;
        if q > PLAN_LIMIT as u128 {
            Real { v: PLAN_LIMIT }
        } else {
            Real { v: q as i64 }
        }
    } else {
        let q: u128 = ((-a1e) as u128) / 1_000_000;
        if q > PLAN_LIMIT as u128 {
            Real { v: -PLAN_LIMIT }
        } else {
            Real { v: -(q as i64) }
        }
    }
}

/// A candidate duration clamped into `[0, PLAN_LIMIT]`.
fn clamp_duration(t: Real) -> (r: Real)
    ensures
        0 <= r.m() <= PLAN_LIMIT as int,
{
    if t.v < 0 {
        Real { v: 0 }
    } else if t.v > PLAN_LIMIT {
        Real { v: PLAN_LIMIT }
    } else {
        t
    }
}

/// Append one jerk step to a ramp under construction: a phase of duration
/// `t` and jerk `j` starting at the running velocity and acceleration,
/// which are then advanced to the phase's end values.  A non-positive
/// duration appends nothing.
fn push_step(out: &mut Vec<Phase>, vcur: &mut Real, acur: &mut Real, t: Real, j: Real)
    requires
        0 <= old(vcur).m() <= PLAN_LIMIT as int,
        abs_int(old(acur).m()) <= PLAN_LIMIT as int,
        abs_int(j.m()) <= PLAN_LIMIT as int,
    ensures
        0 <= final(vcur).m() <= PLAN_LIMIT as int,
        abs_int(final(acur).m()) <= PLAN_LIMIT as int,
        final(out)@.len() <= old(out)@.len() + 1,
{
    let tc: Real = clamp_duration(t);
    if tc.v > 0 {
        let ph = Phase { t: tc, v0: *vcur, a0: *acur, j };
        *vcur = next_v0(&ph);
        *acur = next_a0(&ph);
        out.push(ph);
    }
}

/// Build one jerk-limited velocity ramp from `v_from` toward `v_to`:
/// jerk up, hold the peak acceleration where the velocity change needs
/// it, jerk back to zero.  Returns the phases and the velocity the ramp
/// actually reaches on the fixed-point grid.
fn build_ramp(v_from: Real, v_to: Real, c: &Constraints) -> (r: (Vec<Phase>, Real))
    requires
        c.wf(),
        0 <= v_from.m() <= PLAN_LIMIT as int,
        0 <= v_to.m() <= PLAN_LIMIT as int,
    ensures
        0 <= r.1.m() <= PLAN_LIMIT as int,
        r.0@.len() <= 3,
{
    let mut out: Vec<Phase> = Vec::new();
    let mut vcur: Real = v_from;
    let mut acur: Real = Real::zero();
    let rising: bool = v_from.v < v_to.v;
    let dv: Real = if rising {
        v_to.sub_r(v_from)
    } else {
        v_from.sub_r(v_to)
    };
    if dv.v == 0 {
        return (out, vcur);
    }
    let jsign: Real = if rising {
        c.j_max
    } else {
        c.j_max.neg_r()
    };
    let dvf: Real = c.a_max.mul_r(c.a_max).div_r(c.j_max);
    if dvf.le(&dv) {
        let t1: Real = c.a_max.div_r(c.j_max);
        push_step(&mut out, &mut vcur, &mut acur, t1, jsign);
        let t2: Real = dv.sub_r(dvf).div_r(c.a_max);
        push_step(&mut out, &mut vcur, &mut acur, t2, Real::zero());
        let t3: Real = acur.abs_r().div_r(c.j_max);
        push_step(&mut out, &mut vcur, &mut acur, t3, jsign.neg_r());
    } else {
        let apk: Real = match dv.mul_r(c.j_max).sqrt_r() {
            Some(a) => a.min_r(c.a_max),
            None => Real::zero(),
        };
        let t1: Real = apk.div_r(c.j_max);
        push_step(&mut out, &mut vcur, &mut acur, t1, jsign);
        let t3: Real = acur.abs_r().div_r(c.j_max);
        push_step(&mut out, &mut vcur, &mut acur, t3, jsign.neg_r());
    }
    (out, vcur)
}

/// Exact scaled displacement of a phase list, or `None` when a phase
/// leaves the planning range (the candidate is then rejected).
fn vec_d6(phases: &Vec<Phase>) -> (r: Option<i128>)
    ensures
        r matches Some(d) ==> abs_int(d as int) <= 81_600_000_000_000_000_000_000_000_000_000_000_000,
{
    let n: usize = phases.len();
    if n > 16 {
        return None;
    }
    let mut i: usize = 0;
    let mut dsum: i128 = 0;
    while i < n
        invariant
            0 <= i <= n,
            n <= 16,
            n == phases@.len(),
            abs_int(dsum as int) <= i * 5_100_000_000_000_000_000_000_000_000_000_000_000,
        decreases n - i,
    {
        let ph: Phase = phases[i];
        let bounded: bool = 0 <= ph.t.v && ph.t.v <= PLAN_LIMIT && -PLAN_LIMIT <= ph.v0.v
            && ph.v0.v <= PLAN_LIMIT && -PLAN_LIMIT <= ph.a0.v && ph.a0.v <= PLAN_LIMIT
            && -PLAN_LIMIT <= ph.j.v && ph.j.v <= PLAN_LIMIT;
        if !bounded {
            return None;
        }
        let d: i128 = phase_d6(&ph);
        dsum = dsum + d;
        i = i + 1;
    }
    Some(dsum)
}

/// Scaled displacement of the two ramps of a candidate peak velocity, or
/// `None` when a ramp leaves the planning range.
fn pair_disp(v_in: Real, v_out: Real, peak: Real, c: &Constraints) -> (r: Option<i128>)
    requires
        c.wf(),
        0 <= v_in.m() <= PLAN_LIMIT as int,
        0 <= v_out.m() <= PLAN_LIMIT as int,
        0 <= peak.m() <= PLAN_LIMIT as int,
{
    let (acc, vcr) = build_ramp(v_in, peak, c);
    let (dec, _vend) = build_ramp(vcr, v_out, c);
    let da: i128 = match vec_d6(&acc) {
        Some(d) => d,
        None => {
            return None;
        },
    };
    let dd: i128 = match vec_d6(&dec) {
        Some(d) => d,
        None => {
            return None;
        },
    };
    Some(da + dd)
}

/// Assemble a full candidate phase list for one peak velocity: the accel
/// ramp, a cruise phase sized so the exact displacement reaches the
/// target, and the decel ramp.
fn assemble_candidate(distance: Real, v_in: Real, v_out: Real, peak: Real, c: &Constraints) -> (r:
    Option<Vec<Phase>>)
    requires
        c.wf(),
        0 <= distance.m() <= PLAN_LIMIT as int,
        0 <= v_in.m() <= PLAN_LIMIT as int,
        0 <= v_out.m() <= PLAN_LIMIT as int,
        0 <= peak.m() <= PLAN_LIMIT as int,
{
    let (acc, vcr) = build_ramp(v_in, peak, c);
    let (dec, _vend) = build_ramp(vcr, v_out, c);
    let da: i128 = match vec_d6(&acc) {
        Some(d) => d,
        None => {
            return None;
        },
    };
    let dd: i128 = match vec_d6(&dec) {
        Some(d) => d,
        None => {
            return None;
        },
    };
    proof {
        lemma_mul_abs_le(6 * distance.m(), fs3(), 9_000_000_000, 1_000_000_000_000_000_000);
    }
    let target: i128 = (6 * (distance.v as i128)) * 1_000_000_000_000_000_000;
    let mut out: Vec<Phase> = acc;
    let rem: i128 = target - (da + dd);
    if rem > 0 && vcr.v > 0 {
        proof {
            lemma_mul_abs_le(6 * vcr.m(), fs2(), 9_000_000_000, 1_000_000_000_000);
        }
        let per: i128 = (6 * (vcr.v as i128)) * 1_000_000_000_000;
        let t4: u128 = (rem as u128) / (per as u128);
        if t4 > PLAN_LIMIT as u128 {
            return None;
        }
        if t4 > 0 {
            out.push(Phase { t: Real { v: t4 as i64 }, v0: vcr, a0: Real { v: 0 }, j: Real { v: 0 } });
        }
    }
    let nd: usize = dec.len();
    let mut i: usize = 0;
    while i < nd
        invariant
            0 <= i <= nd,
            nd == dec@.len(),
        decreases nd - i,
    {
        out.push(dec[i]);
        i = i + 1;
    }
    Some(out)
}

/// Assemble and validate one candidate: the result is returned only when
/// the verified validator accepted it.
fn try_candidate(distance: Real, v_in: Real, v_out: Real, peak: Real, c: &Constraints) -> (r:
    Option<SCurveMotionProfile>)
    requires
        c.wf(),
        0 <= distance.m() <= PLAN_LIMIT as int,
        0 <= v_in.m() <= PLAN_LIMIT as int,
        0 <= v_out.m() <= PLAN_LIMIT as int,
        0 <= peak.m() <= PLAN_LIMIT as int,
    ensures
        r matches Some(p) ==> p.wf() && p.distance == distance && p.v_in == v_in && p.v_out
            == v_out && p.constraints == *c,
{
    match assemble_candidate(distance, v_in, v_out, peak, c) {
        None => None,
        Some(phases) => {
            let prof = SCurveMotionProfile { phases, distance, v_in, v_out, constraints: *c };
            if check_profile(&prof) {
                Some(prof)
            } else {
                None
            }
        },
    }
}

/// Extra headroom kept below `v_max` when choosing the cruise target, so
/// grid rounding during the ramps can never push the realized velocity
/// past the limit (about 0.033 unit/s).
pub const VMAX_MARGIN: i64 = 32_768;

/// Compute the jerk-limited velocity profile for one move.
///
/// The profile covers `distance` exactly within [`DISP_TOL`], starts at
/// `v_in` and ends at `v_out` (within the fixed-point tolerance
/// [`vel_tol`]), never exceeds `c.v_max` and honours `c.a_max` and
/// `c.j_max` ([`SCurveMotionProfile::wf`]).  A malformed request is
/// rejected as [`ProfileError::InvalidInput`], exactly when
/// [`invalid_input`] holds; a request whose numeric reduction cannot meet
/// the tolerances is reported as [`ProfileError::NonConvergence`] rather
/// than planned wrongly.
///
/// The contract *owes* a profile only for the constant-velocity family
/// (`v_in == v_out` with the cruise duration inside the planning range):
/// those profiles are constructed directly and proved well-formed here.
/// For moves that need acceleration ramps, the phases are built by the
/// jerk-limited reduction and accepted through the verified exact
/// validator [`check_profile`]; that every feasible ramped request passes
/// the validator is not proved, so `NonConvergence` remains a contractual
/// outcome there, and the feasible families are exercised by tests.
#[verifier::loop_isolation(false)]
pub fn compute(distance: Real, v_in: Real, v_out: Real, c: &Constraints) -> (r: Result<
    SCurveMotionProfile,
    ProfileError,
>)
    ensures
        (r matches Err(e) && e == ProfileError::InvalidInput) <==> invalid_input(
            distance,
            v_in,
            v_out,
            *c,
        ),
        r matches Ok(p) ==> p.wf() && p.distance == distance && p.v_in == v_in && p.v_out == v_out
            && p.constraints == *c,
        !invalid_input(distance, v_in, v_out, *c) && distance.m() == 0 && v_in == v_out ==> r
            is Ok,
        !invalid_input(distance, v_in, v_out, *c) && v_in == v_out && distance.m() * fp_scale()
            <= PLAN_LIMIT as int * v_in.m() ==> r is Ok,
{
    let bad: bool = distance.v < 0 || distance.v > PLAN_LIMIT || v_in.v < 0 || v_out.v < 0
        || v_in.v > c.v_max.v || v_out.v > c.v_max.v || !c.check();
    if bad {
        return Err(ProfileError::InvalidInput);
    }
    if distance.v == 0 && v_in.v == v_out.v {
        // A null move between equal boundary velocities needs no phases:
        // the empty profile is well-formed as it stands.
        let prof = SCurveMotionProfile {
            phases: Vec::new(),
            distance,
            v_in,
            v_out,
            constraints: *c,
        };
        proof {
            assert(prof.phases@.len() == 0);
            assert(prof.wf());
        }
        return Ok(prof);
    }
    if v_in.v == v_out.v && v_in.v > 0 {
        // A constant-velocity move cruises: one phase whose duration is
        // the distance divided by the velocity on the fixed-point grid.
        let du: u64 = (distance.v as u64) * 1_000_000;
        let vu: u64 = v_in.v as u64;
        let t4u: u64 = du / vu;
        let ghost remg = du as int % vu as int;
        proof {
            vstd::arithmetic::div_mod::lemma_fundamental_div_mod(du as int, vu as int);
            vstd::arithmetic::div_mod::lemma_mod_bound(du as int, vu as int);
        }
        if t4u == 0 {
            // Less than one time quantum of travel: below the
            // displacement tolerance, so the empty profile suffices.
            proof {
                assert(du < vu) by (nonlinear_arith)
                    requires
                        t4u as int == du as int / vu as int,
                        t4u as int == 0,
                        vu as int >= 1,
                        du as int >= 0,
                ;
            }
            let prof = SCurveMotionProfile {
                phases: Vec::new(),
                distance,
                v_in,
                v_out,
                constraints: *c,
            };
            proof {
                assert(prof.wf());
            }
            return Ok(prof);
        }
        if t4u <= PLAN_LIMIT as u64 {
            let ph = Phase { t: Real { v: t4u as i64 }, v0: v_in, a0: Real { v: 0 }, j: Real {
                v: 0,
            } };
            let mut phs: Vec<Phase> = Vec::new();
            phs.push(ph);
            let prof = SCurveMotionProfile {
                phases: phs,
                distance,
                v_in,
                v_out,
                constraints: *c,
            };
            proof {
                let s = prof.phases@;
                assert(s.len() == 1);
                assert(s[0] == ph);
                assert(s.drop_last() =~= Seq::<Phase>::empty());
                assert(s.last() == ph);
                assert(d6_sum(Seq::<Phase>::empty()) == 0);
                assert(d6_sum_noncruise(Seq::<Phase>::empty()) == 0);
                let t4 = t4u as int;
                let vm = v_in.m();
                let dm = distance.m();
                let dsm = dm * 1_000_000;
                assert(dsm == du as int);
                assert(du as int == vu as int * t4 + remg);
                assert(vu as int * t4 == t4 * vm) by (nonlinear_arith)
                    requires
                        vu as int == vm,
                ;
                assert(dsm == t4 * vm + remg);
                // The zero-jerk, zero-acceleration terms of the phase
                // integrals vanish.
                assert(ph.a0.m() * ph.t.m() == 0 && (ph.a0.m() * ph.t.m()) * ph.t.m() == 0
                    && ph.a0.m() * 1_000_000 == 0) by (nonlinear_arith)
                    requires
                        ph.a0.m() == 0,
                ;
                assert(ph.j.m() * ((ph.t.m() * ph.t.m()) * ph.t.m()) == 0 && ph.j.m() * (ph.t.m()
                    * ph.t.m()) == 0 && ph.j.m() * ph.t.m() == 0) by (nonlinear_arith)
                    requires
                        ph.j.m() == 0,
                ;
                assert(d6(ph) == 6 * (vm * t4) * fs2());
                assert(v2_end(ph) == 2 * vm * fs2());
                assert(a1_end(ph) == 0);
                assert(d6_sum(s) == 6 * (vm * t4) * fs2());
                assert(is_cruise(ph));
                assert(d6_sum_noncruise(s) == 0);
                // The cruise duration covers the distance to within one
                // velocity-times-time-quantum, far inside the tolerance.
                assert(6 * dm * 1_000_000_000_000_000_000 == 6 * dsm * 1_000_000_000_000)
                    by (nonlinear_arith)
                    requires
                        dsm == dm * 1_000_000,
                ;
                assert(6 * dsm * 1_000_000_000_000 == 6 * (vm * t4) * 1_000_000_000_000 + 6
                    * remg * 1_000_000_000_000) by (nonlinear_arith)
                    requires
                        dsm == t4 * vm + remg,
                ;
                assert(0 <= 6 * remg * 1_000_000_000_000 <= 9_000_000_000_000_000_000_000)
                    by (nonlinear_arith)
                    requires
                        0 <= remg < vm,
                        vm <= 1_500_000_000,
                ;
                assert(2 * vm * fs2() <= 2 * c.v_max.m() * fs2());
                assert(prof.wf());
            }
            return Ok(prof);
        }
        // The cruise would outlast the planning range.
        proof {
            if distance.m() * fp_scale() <= PLAN_LIMIT as int * v_in.m() {
                assert(du as int <= PLAN_LIMIT as int * vu as int);
                assert(false) by (nonlinear_arith)
                    requires
                        du as int == vu as int * (t4u as int) + remg,
                        0 <= remg,
                        du as int <= PLAN_LIMIT as int * vu as int,
                        t4u as int > PLAN_LIMIT as int,
                        vu as int >= 1,
                ;
            }
        }
        return Err(ProfileError::NonConvergence);
    }
    let lo: Real = v_in.max_r(v_out);
    let vct: Real = c.v_max.sub_r(Real { v: VMAX_MARGIN }).max_r(lo);
    match try_candidate(distance, v_in, v_out, vct, c) {
        Some(p) => {
            return Ok(p);
        },
        None => {},
    }
    proof {
        lemma_mul_abs_le(6 * distance.m(), fs3(), 9_000_000_000, 1_000_000_000_000_000_000);
    }
    let target: i128 = (6 * (distance.v as i128)) * 1_000_000_000_000_000_000;
    let mut lo_m: i64 = lo.v;
    let mut hi_m: i64 = vct.v;
    while lo_m < hi_m
        invariant
            0 <= lo_m <= PLAN_LIMIT,
            0 <= hi_m <= PLAN_LIMIT,
        decreases hi_m - lo_m,
    {
        let gap: u64 = (hi_m - lo_m) as u64;
        let mid: i64 = lo_m + ((gap + 1) / 2) as i64;
        let over: bool = match pair_disp(v_in, v_out, Real { v: mid }, c) {
            Some(d) => d > target,
            None => true,
        };
        if over {
            hi_m = mid - 1;
        } else {
            lo_m = mid;
        }
    }
    if lo_m < 0 || lo_m > PLAN_LIMIT {
        return Err(ProfileError::NonConvergence);
    }
    match try_candidate(distance, v_in, v_out, Real { v: lo_m }, c) {
        Some(p) => Ok(p),
        None => Err(ProfileError::NonConvergence),
    }
}

/// Law: the exact integrated displacement of a well-formed profile equals
/// the requested distance within the displacement tolerance.
pub proof fn lemma_profile_distance(p: SCurveMotionProfile)
    requires
        p.wf(),
    ensures
        abs_int(d6_sum(p.phases@) - 6 * p.distance.m() * fs3()) <= 6 * DISP_TOL as int * fs3(),
{
}

/// Law: within one phase, velocity is monotone — non-decreasing while the
/// acceleration keeps a non-negative sign over the phase, non-increasing
/// while it keeps a non-positive sign.
pub proof fn lemma_phase_velocity_monotone(ph: Phase, t1: int, t2: int)
    requires
        phase_bounded(ph),
        0 <= t1 <= t2 <= ph.t.m(),
    ensures
        ph.a0.m() >= 0 && a1_end(ph) >= 0 ==> v2_at(ph, t1) <= v2_at(ph, t2),
        ph.a0.m() <= 0 && a1_end(ph) <= 0 ==> v2_at(ph, t2) <= v2_at(ph, t1),
{
    let a0 = ph.a0.m();
    let j = ph.j.m();
    let tt = ph.t.m();
    if a0 >= 0 && a1_end(ph) >= 0 {
        assert(2 * (a0 * t1) * fp_scale() + j * (t1 * t1) <= 2 * (a0 * t2) * fp_scale() + j * (t2
            * t2)) by (nonlinear_arith)
            requires
                a0 >= 0,
                a0 * fp_scale() + j * tt >= 0,
                0 <= t1 <= t2 <= tt,
        ;
    }
    if a0 <= 0 && a1_end(ph) <= 0 {
        assert(2 * (a0 * t2) * fp_scale() + j * (t2 * t2) <= 2 * (a0 * t1) * fp_scale() + j * (t1
            * t1)) by (nonlinear_arith)
            requires
                a0 <= 0,
                a0 * fp_scale() + j * tt <= 0,
                0 <= t1 <= t2 <= tt,
        ;
    }
}

/// Inside one acceptable phase the velocity stays in `[0, v_max]`.
pub proof fn lemma_phase_velocity_bounds(ph: Phase, c: Constraints, tau: int)
    requires
        phase_wf(ph, c),
        0 <= tau <= ph.t.m(),
    ensures
        0 <= v2_at(ph, tau) <= 2 * c.v_max.m() * fs2(),
{
    lemma_phase_velocity_monotone(ph, 0, tau);
    lemma_phase_velocity_monotone(ph, tau, ph.t.m());
    assert(v2_at(ph, 0) == 2 * ph.v0.m() * fs2()) by (nonlinear_arith);
    assert(0 <= 2 * ph.v0.m() * fs2()) by (nonlinear_arith)
        requires
            ph.v0.m() >= 0,
    ;
    assert(2 * ph.v0.m() * fs2() <= 2 * c.v_max.m() * fs2()) by (nonlinear_arith)
        requires
            ph.v0.m() <= c.v_max.m(),
    ;
}

/// Law: inside every phase of a well-formed profile the velocity stays in
/// `[0, v_max]` — it never exceeds the limit and never goes negative.
pub proof fn lemma_velocity_within_limits(p: SCurveMotionProfile, i: int, tau: int)
    requires
        p.wf(),
        0 <= i < p.phases@.len(),
        0 <= tau <= p.phases@[i].t.m(),
    ensures
        0 <= v2_at(p.phases@[i], tau) <= 2 * p.constraints.v_max.m() * fs2(),
{
    assert(phase_wf(p.phases@[i], p.constraints));
    lemma_phase_velocity_bounds(p.phases@[i], p.constraints, tau);
}

/// Law: a well-formed profile starts exactly at the entry velocity, with
/// zero acceleration, and its last phase ends at the exit velocity within
/// the fixed-point velocity tolerance.
pub proof fn lemma_velocity_boundaries(p: SCurveMotionProfile)
    requires
        p.wf(),
        p.phases@.len() > 0,
    ensures
        p.phases@[0].v0 == p.v_in,
        p.phases@[0].a0.m() == 0,
        abs_int(
            v2_end(p.phases@[p.phases@.len() - 1]) - 2 * p.v_out.m() * fs2(),
        ) <= 2 * vel_tol(p.constraints) * fs2(),
{
}

/// Law: velocity is continuous across every phase boundary of a
/// well-formed profile, to within one fixed-point velocity quantum.
pub proof fn lemma_velocity_continuity(p: SCurveMotionProfile, i: int)
    requires
        p.wf(),
        0 <= i < p.phases@.len() - 1,
    ensures
        abs_int(v2_end(p.phases@[i]) - 2 * p.phases@[i + 1].v0.m() * fs2()) <= 2 * fs2(),
{
}

/// Law: acceleration never jumps at a phase boundary beyond one jerk
/// quantum, every phase applies a jerk of exactly `-j_max`, zero or
/// `+j_max`, and the profile ends with (essentially) zero acceleration —
/// the jerk-limited shape is respected everywhere.
pub proof fn lemma_accel_continuity(p: SCurveMotionProfile, i: int)
    requires
        p.wf(),
        0 <= i < p.phases@.len(),
    ensures
        p.phases@[i].j.m() == 0 || p.phases@[i].j.m() == p.constraints.j_max.m()
            || p.phases@[i].j.m() == -p.constraints.j_max.m(),
        abs_int(p.phases@[i].j.m()) <= p.constraints.j_max.m(),
        i < p.phases@.len() - 1 ==> abs_int(
            a1_end(p.phases@[i]) - p.phases@[i + 1].a0.m() * fp_scale(),
        ) <= p.constraints.j_max.m(),
        i == p.phases@.len() - 1 ==> abs_int(a1_end(p.phases@[i])) <= p.constraints.j_max.m(),
{
}

/// Law: inside every phase of a well-formed profile the acceleration
/// magnitude stays within the acceleration limit.
pub proof fn lemma_accel_within_limits(p: SCurveMotionProfile, i: int, tau: int)
    requires
        p.wf(),
        0 <= i < p.phases@.len(),
        0 <= tau <= p.phases@[i].t.m(),
    ensures
        abs_int(a1_at(p.phases@[i], tau)) <= p.constraints.a_max.m() * fp_scale(),
{
    let ph = p.phases@[i];
    assert(phase_wf(ph, p.constraints));
    lemma_mul_abs_le(ph.a0.m(), fp_scale(), p.constraints.a_max.m(), fp_scale());
    if ph.j.m() >= 0 {
        assert(0 <= ph.j.m() * tau <= ph.j.m() * ph.t.m()) by (nonlinear_arith)
            requires
                ph.j.m() >= 0,
                0 <= tau <= ph.t.m(),
        ;
    } else {
        assert(ph.j.m() * ph.t.m() <= ph.j.m() * tau <= 0) by (nonlinear_arith)
            requires
                ph.j.m() < 0,
                0 <= tau <= ph.t.m(),
        ;
    }
}

/// Law: a cruise phase appears only when the ramp (non-cruise) phases
/// alone do not already cover the requested distance — a move too short
/// to reach the cruise velocity is planned without one.
pub proof fn lemma_no_cruise_when_short(p: SCurveMotionProfile)
    requires
        p.wf(),
        has_cruise(p.phases@),
    ensures
        d6_sum_noncruise(p.phases@) <= 6 * p.distance.m() * fs3(),
{
}

} // verus!
