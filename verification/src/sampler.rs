//! Profile sampling and diagnostics.
//!
//! A computed profile can be read back as a time series: velocity,
//! acceleration and accumulated displacement at any offset from the
//! profile's start, and a [`PlanProfile`] walks the whole profile at a
//! fixed time step.  This is offline validation and tuning support, not
//! the real-time path.

use vstd::prelude::*;
use crate::fixed::{Real, abs_int, fp_scale, tdiv};
use crate::planner::{
    Phase, SCurveMotionProfile, phase_wf, v2_at, v2_end, a1_at, d6, d6_at, fs2, fs3, PLAN_LIMIT,
    phase_v2_at, phase_a1_at, phase_d6_at,
};

verus! {

/// Total duration of a phase list.
pub open spec fn time_sum(s: Seq<Phase>) -> int
    decreases s.len(),
{
    if s.len() == 0 {
        0
    } else {
        time_sum(s.drop_last()) + s.last().t.m()
    }
}

/// Scaled velocity the profile prescribes at offset `t` from its start:
/// the phases are scanned in order; past the last phase it is zero.
pub open spec fn profile_v2_at(s: Seq<Phase>, t: int) -> int
    decreases s.len(),
{
    if s.len() == 0 {
        0
    } else if t <= s[0].t.m() {
        v2_at(s[0], t)
    } else {
        profile_v2_at(s.drop_first(), t - s[0].t.m())
    }
}

/// Scaled acceleration the profile prescribes at offset `t`; past the
/// last phase it is zero.
pub open spec fn profile_a1_at(s: Seq<Phase>, t: int) -> int
    decreases s.len(),
{
    if s.len() == 0 {
        0
    } else if t <= s[0].t.m() {
        a1_at(s[0], t)
    } else {
        profile_a1_at(s.drop_first(), t - s[0].t.m())
    }
}

/// Scaled displacement the profile has accumulated by offset `t`.
pub open spec fn profile_d6_at(s: Seq<Phase>, t: int) -> int
    decreases s.len(),
{
    if s.len() == 0 {
        0
    } else if t <= s[0].t.m() {
        d6_at(s[0], t)
    } else {
        d6(s[0]) + profile_d6_at(s.drop_first(), t - s[0].t.m())
    }
}

/// Velocity mantissa from the scaled value: floored to the fixed-point
/// grid, never negative.
pub open spec fn vel_mant(v2: int) -> int {
    if v2 <= 0 {
        0
    } else {
        v2 / (2 * fs2())
    }
}

/// Acceleration mantissa from the scaled value, rounded toward zero.
pub open spec fn acc_mant(a1: int) -> int {
    tdiv(a1, fp_scale())
}

/// Position mantissa from the scaled value: floored, never negative,
/// saturated at the mantissa range.
pub open spec fn pos_mant(dd: int) -> int {
    if dd <= 0 {
        0
    } else if dd / (6 * fs3()) > i64::MAX as int {
        i64::MAX as int
    } else {
        dd / (6 * fs3())
    }
}

impl SCurveMotionProfile {
    /// The profile's total duration: the sum of its phase durations.
    #[verifier::loop_isolation(false)]
    pub fn total_time(&self) -> (r: Real)
        requires
            self.wf(),
        ensures
            r.m() == time_sum(self.phases@),
            0 <= r.m() <= 16 * PLAN_LIMIT as int,
    {
        let ghost ph = self.phases@;
        let n: usize = self.phases.len();
        let mut i: usize = 0;
        let mut acc: i64 = 0;
        while i < n
            invariant
                0 <= i <= n,
                acc as int == time_sum(ph.take(i as int)),
                0 <= acc as int <= i * PLAN_LIMIT as int,
            decreases n - i,
        {
            proof {
                assert(phase_wf(ph[i as int], self.constraints));
                assert(ph.take(i + 1 as int).drop_last() =~= ph.take(i as int));
            }
            acc = acc + self.phases[i].t.v;
            i = i + 1;
        }
        proof {
            assert(ph.take(n as int) =~= ph);
        }
        Real { v: acc }
    }

    /// The velocity the profile prescribes `t` after its start (zero
    /// after the profile has ended).
    #[verifier::loop_isolation(false)]
    pub fn velocity_at(&self, t: Real) -> (r: Real)
        requires
            self.wf(),
            0 <= t.m(),
        ensures
            r.m() == vel_mant(profile_v2_at(self.phases@, t.m())),
    {
        let ghost ph = self.phases@;
        let n: usize = self.phases.len();
        let mut i: usize = 0;
        let mut rem: i64 = t.v;
        proof {
            assert(ph.skip(0) =~= ph);
        }
        while i < n
            invariant
                0 <= i <= n,
                0 <= rem,
                profile_v2_at(ph, t.m()) == profile_v2_at(ph.skip(i as int), rem as int),
            decreases n - i,
        {
            proof {
                assert(phase_wf(ph[i as int], self.constraints));
                assert(ph.skip(i as int)[0] == ph[i as int]);
            }
            let dur: i64 = self.phases[i].t.v;
            if rem <= dur {
                let v2: i128 = phase_v2_at(&self.phases[i], rem);
                if v2 <= 0 {
                    return Real { v: 0 };
                }
                let q: u128 = (v2 as u128) / 2_000_000_000_000;
                proof {
                    assert(q as int * 2_000_000_000_000int <= v2 as int && q as int
                        <= 10_000_000_000_000_000int) by (nonlinear_arith)
                        requires
                            q as int == v2 as int / 2_000_000_000_000int,
                            0 < v2 as int <= 10_000_000_000_000_000_000_000_000_000int,
                    ;
                }
                return Real { v: q as i64 };
            }
            rem = rem - dur;
            proof {
                assert(ph.skip(i as int).drop_first() =~= ph.skip(i + 1 as int));
            }
            i = i + 1;
        }
        proof {
            assert(ph.skip(n as int) =~= Seq::<Phase>::empty());
        }
        Real { v: 0 }
    }

    /// The acceleration the profile prescribes `t` after its start (zero
    /// after the profile has ended).
    #[verifier::loop_isolation(false)]
    pub fn acceleration_at(&self, t: Real) -> (r: Real)
        requires
            self.wf(),
            0 <= t.m(),
        ensures
            r.m() == acc_mant(profile_a1_at(self.phases@, t.m())),
    {
        let ghost ph = self.phases@;
        let n: usize = self.phases.len();
        let mut i: usize = 0;
        let mut rem: i64 = t.v;
        proof {
            assert(ph.skip(0) =~= ph);
        }
        while i < n
            invariant
                0 <= i <= n,
                0 <= rem,
                profile_a1_at(ph, t.m()) == profile_a1_at(ph.skip(i as int), rem as int),
            decreases n - i,
        {
            proof {
                assert(phase_wf(ph[i as int], self.constraints));
                assert(ph.skip(i as int)[0] == ph[i as int]);
            }
            let dur: i64 = self.phases[i].t.v;
            if rem <= dur {
                let a1: i128 = phase_a1_at(&self.phases[i], rem);
                if a1 >= 0 {
                    let q: u128 = (a1 as u128) / 1_000_000;
                    proof {
                        assert(q as int * 1_000_000int <= a1 as int && q as int
                            <= 4_000_000_000_000_000int) by (nonlinear_arith)
                            requires
                                q as int == a1 as int / 1_000_000int,
                                0 <= a1 as int <= 4_000_000_000_000_000_000int,
                        ;
                    }
                    return Real { v: q as i64 };
                }
                let q: u128 = ((-a1) as u128) / 1_000_000;
                proof {
                    assert(q as int * 1_000_000int <= -(a1 as int) && q as int
                        <= 4_000_000_000_000_000int) by (nonlinear_arith)
                        requires
                            q as int == -(a1 as int) / 1_000_000int,
                            0 < -(a1 as int) <= 4_000_000_000_000_000_000int,
                    ;
                }
                return Real { v: -(q as i64) };
            }
            rem = rem - dur;
            proof {
                assert(ph.skip(i as int).drop_first() =~= ph.skip(i + 1 as int));
            }
            i = i + 1;
        }
        proof {
            assert(ph.skip(n as int) =~= Seq::<Phase>::empty());
        }
        Real { v: 0 }
    }

    /// The displacement the profile has accumulated `t` after its start
    /// (its full displacement after it has ended).
    #[verifier::loop_isolation(false)]
    pub fn displacement_at(&self, t: Real) -> (r: Real)
        requires
            self.wf(),
            0 <= t.m(),
        ensures
            r.m() == pos_mant(profile_d6_at(self.phases@, t.m())),
    {
        let ghost ph = self.phases@;
        let n: usize = self.phases.len();
        let mut i: usize = 0;
        let mut rem: i64 = t.v;
        let mut dacc: i128 = 0;
        proof {
            assert(ph.skip(0) =~= ph);
        }
        while i < n
            invariant
                0 <= i <= n,
                0 <= rem,
                profile_d6_at(ph, t.m()) == dacc + profile_d6_at(ph.skip(i as int), rem as int),
                abs_int(dacc as int) <= i * 5_100_000_000_000_000_000_000_000_000_000_000_000,
            decreases n - i,
        {
            proof {
                assert(phase_wf(ph[i as int], self.constraints));
                assert(ph.skip(i as int)[0] == ph[i as int]);
            }
            let dur: i64 = self.phases[i].t.v;
            if rem <= dur {
                let part: i128 = phase_d6_at(&self.phases[i], rem);
                let total: i128 = dacc + part;
                return pos_from_d6(total);
            }
            let full: i128 = crate::planner::phase_d6(&self.phases[i]);
            dacc = dacc + full;
            rem = rem - dur;
            proof {
                assert(ph.skip(i as int).drop_first() =~= ph.skip(i + 1 as int));
            }
            i = i + 1;
        }
        proof {
            assert(ph.skip(n as int) =~= Seq::<Phase>::empty());
        }
        pos_from_d6(dacc)
    }
}

/// The scanned velocity of a list of acceptable phases stays in
/// `[0, v_max]` at every time offset.
pub proof fn lemma_scan_velocity_bounded(s: Seq<Phase>, c: crate::planner::Constraints, t: int)
    requires
        c.wf(),
        forall|i: int| 0 <= i < s.len() ==> phase_wf(#[trigger] s[i], c),
        0 <= t,
    ensures
        0 <= profile_v2_at(s, t) <= 2 * c.v_max.m() * fs2(),
    decreases s.len(),
{
    if s.len() == 0 {
        assert(0 <= 2 * c.v_max.m() * fs2()) by (nonlinear_arith)
            requires
                c.v_max.m() > 0,
        ;
    } else if t <= s[0].t.m() {
        crate::planner::lemma_phase_velocity_bounds(s[0], c, t);
    } else {
        assert(phase_wf(s[0], c));
        assert forall|i: int| 0 <= i < s.drop_first().len() implies phase_wf(
            #[trigger] s.drop_first()[i],
            c,
        ) by {
            assert(s.drop_first()[i] == s[i + 1]);
        }
        lemma_scan_velocity_bounded(s.drop_first(), c, t - s[0].t.m());
    }
}

/// Law: the velocity a well-formed profile prescribes never exceeds the
/// profile's velocity limit and never goes negative, at any time offset
/// from its start.
pub proof fn lemma_sampled_velocity_never_exceeds(p: SCurveMotionProfile, t: int)
    requires
        p.wf(),
        0 <= t,
    ensures
        0 <= profile_v2_at(p.phases@, t),
        vel_mant(profile_v2_at(p.phases@, t)) <= p.constraints.v_max.m(),
{
    lemma_scan_velocity_bounded(p.phases@, p.constraints, t);
    let v2 = profile_v2_at(p.phases@, t);
    if v2 > 0 {
        assert(v2 / (2 * fs2()) <= p.constraints.v_max.m()) by (nonlinear_arith)
            requires
                0 < v2 <= 2 * p.constraints.v_max.m() * fs2(),
                fs2() == 1_000_000_000_000,
                p.constraints.v_max.m() >= 0,
        ;
    }
}

/// Law: the velocity sampled at the very start of a well-formed,
/// non-empty profile is exactly the entry velocity.
pub proof fn lemma_sample_at_start_is_entry_velocity(p: SCurveMotionProfile)
    requires
        p.wf(),
        p.phases@.len() > 0,
    ensures
        vel_mant(profile_v2_at(p.phases@, 0)) == p.v_in.m(),
{
    let ph0 = p.phases@[0];
    assert(phase_wf(ph0, p.constraints));
    assert(profile_v2_at(p.phases@, 0) == v2_at(ph0, 0));
    assert(v2_at(ph0, 0) == 2 * ph0.v0.m() * fs2()) by (nonlinear_arith);
    if ph0.v0.m() == 0 {
        assert(vel_mant(0) == 0);
    } else {
        assert(2 * ph0.v0.m() * fs2() == ph0.v0.m() * (2 * fs2())) by (nonlinear_arith);
        assert((ph0.v0.m() * (2 * fs2())) / (2 * fs2()) == ph0.v0.m()) by (nonlinear_arith)
            requires
                ph0.v0.m() > 0,
        ;
    }
}

/// The total duration splits off the first phase.
proof fn lemma_time_sum_left(s: Seq<Phase>)
    requires
        s.len() > 0,
    ensures
        time_sum(s) == s[0].t.m() + time_sum(s.drop_first()),
    decreases s.len(),
{
    if s.len() == 1 {
        assert(s.drop_first() =~= Seq::<Phase>::empty());
        assert(s.drop_last() =~= Seq::<Phase>::empty());
        assert(s.last() == s[0]);
    } else {
        lemma_time_sum_left(s.drop_last());
        assert(s.drop_last()[0] == s[0]);
        assert(s.drop_last().drop_first() =~= s.drop_first().drop_last());
        assert(s.drop_first().last() == s.last());
    }
}

/// A list of strictly positive durations has a strictly positive total.
proof fn lemma_time_sum_positive(s: Seq<Phase>)
    requires
        forall|i: int| 0 <= i < s.len() ==> (#[trigger] s[i]).t.m() > 0,
    ensures
        time_sum(s) >= 0,
        s.len() > 0 ==> time_sum(s) > 0,
    decreases s.len(),
{
    if s.len() > 0 {
        lemma_time_sum_positive(s.drop_last());
    }
}

/// Scanning a list of positive-duration phases at its exact total
/// duration reads the end of the last phase.
proof fn lemma_scan_at_total(s: Seq<Phase>)
    requires
        s.len() > 0,
        forall|i: int| 0 <= i < s.len() ==> (#[trigger] s[i]).t.m() > 0,
    ensures
        profile_v2_at(s, time_sum(s)) == v2_end(s[s.len() - 1]),
    decreases s.len(),
{
    lemma_time_sum_left(s);
    if s.len() == 1 {
        assert(s.drop_first() =~= Seq::<Phase>::empty());
        assert(time_sum(s) == s[0].t.m());
    } else {
        let rest = s.drop_first();
        assert forall|i: int| 0 <= i < rest.len() implies (#[trigger] rest[i]).t.m() > 0 by {
            assert(rest[i] == s[i + 1]);
        }
        lemma_time_sum_positive(rest);
        assert(time_sum(s) > s[0].t.m());
        lemma_scan_at_total(rest);
        assert(rest[rest.len() - 1] == s[s.len() - 1]);
    }
}

/// Law: a well-formed profile without spurious zero-length phases, read
/// at its exact total duration, shows the exit velocity to within the
/// fixed-point velocity tolerance.
pub proof fn lemma_sample_at_end_is_exit_velocity(p: SCurveMotionProfile)
    requires
        p.wf(),
        p.phases@.len() > 0,
        forall|i: int| 0 <= i < p.phases@.len() ==> (#[trigger] p.phases@[i]).t.m() > 0,
    ensures
        abs_int(
            profile_v2_at(p.phases@, time_sum(p.phases@)) - 2 * p.v_out.m() * fs2(),
        ) <= 2 * crate::planner::vel_tol(p.constraints) * fs2(),
{
    lemma_scan_at_total(p.phases@);
}

/// Convert a scaled displacement to a position mantissa.
fn pos_from_d6(dd: i128) -> (r: Real)
    ensures
        r.m() == pos_mant(dd as int),
{
    if dd <= 0 {
        Real { v: 0 }
    } else {
        let q: u128 = (dd as u128) / 6_000_000_000_000_000_000;
        if q > i64::MAX as u128 {
            Real { v: i64::MAX }
        } else {
            Real { v: q as i64 }
        }
    }
}

/// An offline sampler over a computed profile: a fixed time step and the
/// profile it walks.
pub struct PlanProfile {
    /// The profile being sampled.
    pub profile: SCurveMotionProfile,
    /// The sampling interval.
    pub step: Real,
}

impl PlanProfile {
    /// Bind a profile to a sampling step.
    pub fn new(profile: SCurveMotionProfile, step: Real) -> (r: PlanProfile)
        ensures
            r.profile == profile,
            r.step == step,
    {
        PlanProfile { profile, step }
    }

    /// The (time, position, velocity, acceleration) series at every
    /// multiple of the step inside the profile's duration, in order.
    #[verifier::loop_isolation(false)]
    pub fn sample_series(&self) -> (r: Vec<(Real, Real, Real, Real)>)
        requires
            self.profile.wf(),
            0 < self.step.m() <= PLAN_LIMIT as int,
        ensures
            r@.len() >= 1,
            (r@.len() - 1) * self.step.m() <= time_sum(self.profile.phases@),
            time_sum(self.profile.phases@) < r@.len() * self.step.m(),
            forall|k: int|
                0 <= k < r@.len() ==> {
                    let tk = k * self.step.m();
                    &&& (#[trigger] r@[k]).0.m() == tk
                    &&& r@[k].1.m() == pos_mant(profile_d6_at(self.profile.phases@, tk))
                    &&& r@[k].2.m() == vel_mant(profile_v2_at(self.profile.phases@, tk))
                    &&& r@[k].3.m() == acc_mant(profile_a1_at(self.profile.phases@, tk))
                },
    {
        let total: Real = self.profile.total_time();
        let mut out: Vec<(Real, Real, Real, Real)> = Vec::new();
        let mut tcur: i64 = 0;
        while tcur <= total.v
            invariant
                0 <= tcur,
                tcur as int == out@.len() * self.step.m(),
                tcur as int <= total.m() + self.step.m(),
                forall|k: int|
                    0 <= k < out@.len() ==> {
                        let tk = k * self.step.m();
                        &&& (#[trigger] out@[k]).0.m() == tk
                        &&& out@[k].1.m() == pos_mant(profile_d6_at(self.profile.phases@, tk))
                        &&& out@[k].2.m() == vel_mant(profile_v2_at(self.profile.phases@, tk))
                        &&& out@[k].3.m() == acc_mant(profile_a1_at(self.profile.phases@, tk))
                    },
            decreases total.m() + self.step.m() - tcur,
        {
            let t: Real = Real { v: tcur };
            let pos: Real = self.profile.displacement_at(t);
            let vel: Real = self.profile.velocity_at(t);
            let acc: Real = self.profile.acceleration_at(t);
            out.push((t, pos, vel, acc));
            proof {
                assert((out@.len() - 1) * self.step.m() + self.step.m() == out@.len()
                    * self.step.m()) by (nonlinear_arith);
            }
            tcur = tcur + self.step.v;
        }
        proof {
            assert(out@.len() * self.step.m() > 0 ==> out@.len() >= 1) by (nonlinear_arith);
            assert((out@.len() - 1) * self.step.m() == out@.len() * self.step.m()
                - self.step.m()) by (nonlinear_arith);
        }
        out
    }
}

} // verus!
