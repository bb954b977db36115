//! Move decomposition, constraint projection and segment construction.
//!
//! A motion request (start and target positions, optional feed-rate
//! override, machine limit tables) is decomposed into a unit direction
//! and a scalar distance, the per-axis limits are projected onto that
//! direction, and the S-curve generator turns the result into an
//! immutable [`Segment`] for the step-pulse execution pipeline.

use vstd::prelude::*;
use crate::fixed::{Real, abs_int, fp_scale, mul_mant, div_mant, lemma_div_mant_accuracy};
use crate::tgeo::{
    TVector, CoordSel, ArithmeticOps, RealOps, decompose_spec, norm2_spec, sub_axis, div_axis,
    clamp_axis, vmin_spec,
};
use crate::planner::{Constraints, SCurveMotionProfile, ProfileError, compute, invalid_input,
    PLAN_LIMIT};

verus! {

/// A positional delta axis: the difference where both ends define the
/// axis, turned undefined when it is exactly zero (no motion there).
pub open spec fn delta_pos_axis(a: Option<Real>, b: Option<Real>) -> Option<Real> {
    match sub_axis(b, a) {
        Some(d) => if d.m() == 0 {
            None
        } else {
            Some(d)
        },
        None => None,
    }
}

/// The positional part of a move: per-axis target minus start, zero
/// deltas undefined, the extruder axis excluded from the distance.
pub open spec fn move_delta_spec(p0: TVector<Real>, p1: TVector<Real>) -> TVector<Real> {
    TVector {
        x: delta_pos_axis(p0.x, p1.x),
        y: delta_pos_axis(p0.y, p1.y),
        z: delta_pos_axis(p0.z, p1.z),
        e: None,
    }
}

/// The unit direction of a move.
pub open spec fn move_dir_spec(p0: TVector<Real>, p1: TVector<Real>) -> TVector<Real> {
    decompose_spec(move_delta_spec(p0, p1)).0
}

/// The scalar travel distance of a move (zero when no positional axis
/// moves).
pub open spec fn move_dist_spec(p0: TVector<Real>, p1: TVector<Real>) -> Real {
    decompose_spec(move_delta_spec(p0, p1)).1
}

/// Decompose a move into (unit direction, distance): per-axis deltas,
/// zero deltas undefined, the extruder axis excluded, then normalized.
/// A null or extrusion-only move yields (all-undefined, zero).
pub fn decompose_move(p0: &TVector<Real>, p1: &TVector<Real>) -> (r: (TVector<Real>, Real))
    ensures
        r.0 == move_dir_spec(*p0, *p1),
        r.1 == move_dist_spec(*p0, *p1),
{
    let delta: TVector<Real> = p1.vsub(p0);
    let pos: TVector<Real> = TVector {
        x: match delta.x {
            Some(d) => if d.is_zero() {
                None
            } else {
                Some(d)
            },
            None => None,
        },
        y: match delta.y {
            Some(d) => if d.is_zero() {
                None
            } else {
                Some(d)
            },
            None => None,
        },
        z: match delta.z {
            Some(d) => if d.is_zero() {
                None
            } else {
                Some(d)
            },
            None => None,
        },
        e: None,
    };
    proof {
        assert(pos == move_delta_spec(*p0, *p1));
    }
    pos.decompose_normal()
}

/// Law: where a vector has a positive norm, its decomposition's direction
/// is the exact per-axis normalization at fixed-point resolution: every
/// defined axis `a` maps to a defined direction component `d` with
/// `d * n` within one part of `n` of `a * S` (so `d` equals `a / n` to
/// one fixed-point quantum), undefined axes stay undefined, and the
/// returned scalar is exactly the norm.  Since the norm is in turn
/// exactly the integer square root of the truncated sum of squared axes,
/// this is the fixed-point form of the unit-norm invariant of a
/// segment's direction vector.  The magnitude bound is the planner's
/// fixed-point planning range.
pub proof fn lemma_direction_normalization_accuracy(v: TVector<Real>)
    requires
        norm2_spec(v) is Some,
        norm2_spec(v)->0.m() > 0,
        v.x matches Some(a) ==> abs_int(a.m()) <= PLAN_LIMIT as int,
        v.y matches Some(a) ==> abs_int(a.m()) <= PLAN_LIMIT as int,
        v.z matches Some(a) ==> abs_int(a.m()) <= PLAN_LIMIT as int,
        v.e matches Some(a) ==> abs_int(a.m()) <= PLAN_LIMIT as int,
    ensures
        decompose_spec(v).1 == norm2_spec(v)->0,
        v.x is None ==> decompose_spec(v).0.x is None,
        v.y is None ==> decompose_spec(v).0.y is None,
        v.z is None ==> decompose_spec(v).0.z is None,
        v.e is None ==> decompose_spec(v).0.e is None,
        v.x matches Some(a) ==> (decompose_spec(v).0.x matches Some(d) && abs_int(
            d.m() * norm2_spec(v)->0.m() - a.m() * fp_scale(),
        ) < norm2_spec(v)->0.m()),
        v.y matches Some(a) ==> (decompose_spec(v).0.y matches Some(d) && abs_int(
            d.m() * norm2_spec(v)->0.m() - a.m() * fp_scale(),
        ) < norm2_spec(v)->0.m()),
        v.z matches Some(a) ==> (decompose_spec(v).0.z matches Some(d) && abs_int(
            d.m() * norm2_spec(v)->0.m() - a.m() * fp_scale(),
        ) < norm2_spec(v)->0.m()),
        v.e matches Some(a) ==> (decompose_spec(v).0.e matches Some(d) && abs_int(
            d.m() * norm2_spec(v)->0.m() - a.m() * fp_scale(),
        ) < norm2_spec(v)->0.m()),
{
    let n2 = norm2_spec(v)->0;
    assert(!n2.is_zero_spec());
    if v.x is Some {
        let a = v.x->0;
        lemma_div_mant_accuracy(a.m(), n2.m());
        assert(decompose_spec(v).0.x == Some(Real { v: div_mant(a.m(), n2.m()) as i64 }));
    }
    if v.y is Some {
        let a = v.y->0;
        lemma_div_mant_accuracy(a.m(), n2.m());
        assert(decompose_spec(v).0.y == Some(Real { v: div_mant(a.m(), n2.m()) as i64 }));
    }
    if v.z is Some {
        let a = v.z->0;
        lemma_div_mant_accuracy(a.m(), n2.m());
        assert(decompose_spec(v).0.z == Some(Real { v: div_mant(a.m(), n2.m()) as i64 }));
    }
    if v.e is Some {
        let a = v.e->0;
        lemma_div_mant_accuracy(a.m(), n2.m());
        assert(decompose_spec(v).0.e == Some(Real { v: div_mant(a.m(), n2.m()) as i64 }));
    }
}

/// The absolute values of the defined axes.
pub open spec fn vabs_spec(v: TVector<Real>) -> TVector<Real> {
    TVector {
        x: match v.x {
            Some(a) => Some(a.abs_spec()),
            None => None,
        },
        y: match v.y {
            Some(a) => Some(a.abs_spec()),
            None => None,
        },
        z: match v.z {
            Some(a) => Some(a.abs_spec()),
            None => None,
        },
        e: match v.e {
            Some(a) => Some(a.abs_spec()),
            None => None,
        },
    }
}

/// The scalar ceiling the per-axis limit table imposes on a move in
/// direction `dir`: the minimum, over the axes that both the direction
/// (with a non-zero component) and the table define, of
/// `limit / |direction component|`; `None` when no axis constrains the
/// move.
pub open spec fn project_limit_spec(dir: TVector<Real>, limits: TVector<Real>) -> Option<Real> {
    vmin_spec(
        TVector {
            x: div_axis(limits.x, vabs_spec(dir).x),
            y: div_axis(limits.y, vabs_spec(dir).y),
            z: div_axis(limits.z, vabs_spec(dir).z),
            e: div_axis(limits.e, vabs_spec(dir).e),
        },
    )
}

/// Project a per-axis limit table onto a move direction: every defined,
/// non-zero direction axis imposes the ceiling `limit / |component|`,
/// and the move's scalar limit is the smallest ceiling, so no axis is
/// ever driven past its own limit.
pub fn project_limit(dir: &TVector<Real>, limits: &TVector<Real>) -> (r: Option<Real>)
    ensures
        r == project_limit_spec(*dir, *limits),
{
    let a: TVector<Real> = dir.abs();
    let ceilings: TVector<Real> = limits.vdiv(&a);
    ceilings.min()
}

/// The extruder feed component: the extruder delta scaled by the flow
/// rate, undefined when the extruder does not move.
pub open spec fn e_feed_spec(e0: Option<Real>, e1: Option<Real>, flow_rate: Real) -> Option<
    Real,
> {
    match sub_axis(e1, e0) {
        Some(d) => if d.m() == 0 {
            None
        } else {
            Some(d.mul_spec(flow_rate))
        },
        None => None,
    }
}

/// The requested per-axis speed vector: direction magnitudes (the
/// extruder axis replaced by its flow component) scaled by the speed
/// module.
pub open spec fn speed_vector_spec(
    dir: TVector<Real>,
    e_feed: Option<Real>,
    module: Real,
) -> TVector<Real> {
    let withe = TVector { x: dir.x, y: dir.y, z: dir.z, e: e_feed };
    TVector {
        x: match withe.x {
            Some(a) => Some(a.abs_spec().mul_spec(module)),
            None => None,
        },
        y: match withe.y {
            Some(a) => Some(a.abs_spec().mul_spec(module)),
            None => None,
        },
        z: match withe.z {
            Some(a) => Some(a.abs_spec().mul_spec(module)),
            None => None,
        },
        e: match withe.e {
            Some(a) => Some(a.abs_spec().mul_spec(module)),
            None => None,
        },
    }
}

/// The per-axis speed vector clamped against the machine speed table.
pub open spec fn clamped_speed_spec(sv: TVector<Real>, max_speed: TVector<Real>) -> TVector<
    Real,
> {
    TVector {
        x: clamp_axis(sv.x, max_speed.x),
        y: clamp_axis(sv.y, max_speed.y),
        z: clamp_axis(sv.z, max_speed.z),
        e: clamp_axis(sv.e, max_speed.e),
    }
}

/// A step-rate conversion: a velocity times the steps-per-unit
/// calibration, rounded half away from zero and clamped into `u32`.
pub open spec fn sps_of(v: Real, steps_per_unit: Real) -> int {
    let m = mul_mant(v.m(), steps_per_unit.m());
    let rounded = if m < 0 {
        -((abs_int(m) + fp_scale() / 2) / fp_scale())
    } else {
        (m + fp_scale() / 2) / fp_scale()
    };
    if rounded < 0 {
        0
    } else if rounded > u32::MAX as int {
        u32::MAX as int
    } else {
        rounded
    }
}

/// Convert a velocity to a stepper rate.
fn to_sps(v: Real, steps_per_unit: Real) -> (r: u32)
    ensures
        r as int == sps_of(v, steps_per_unit),
{
    let scaled: Real = v.mul_r(steps_per_unit);
    let rounded: i64 = scaled.round_to_i64();
    if rounded < 0 {
        0
    } else if rounded > u32::MAX as i64 {
        u32::MAX
    } else {
        rounded as u32
    }
}

/// The immutable payload of one planned move: boundary step rates, the
/// discretized step count, the unit direction and the destination.
#[derive(Clone, Debug)]
pub struct SegmentData {
    /// Step rate at segment entry.
    pub speed_enter_sps: u32,
    /// Step rate at segment exit.
    pub speed_exit_sps: u32,
    /// Total step count: the travel distance rounded to the stepper grid.
    pub total_steps: u32,
    /// Unit direction of the move.
    pub vdir: TVector<Real>,
    /// Destination position.
    pub dest_pos: TVector<Real>,
}

/// One planned, atomic linear move: its data and its velocity profile.
/// Built once, handed to the step-pulse execution pipeline, never
/// mutated.
#[derive(Clone, Debug)]
pub struct Segment {
    /// The planning data of the move.
    pub segment_data: SegmentData,
    /// The computed jerk-limited velocity profile.
    pub motion_profile: SCurveMotionProfile,
}

impl Segment {
    /// Bind segment data to its computed profile.
    pub fn new(segment_data: SegmentData, motion_profile: SCurveMotionProfile) -> (r: Segment)
        ensures
            r.segment_data == segment_data,
            r.motion_profile == motion_profile,
    {
        Segment { segment_data, motion_profile }
    }
}

/// Plan one linear move end to end.
///
/// Decomposes `p0 -> p1` into a unit direction and a distance, derives
/// the per-axis speed vector (feed override or default, scaled by the
/// speed rate; the extruder axis from its flow-scaled delta), clamps it
/// against the machine speed table, projects the acceleration and jerk
/// tables onto the direction, and runs the S-curve generator between the
/// boundary velocities `v_in` and `v_out`.
///
/// A null or extrusion-only move (zero distance) yields `Ok(None)`:
/// nothing to plan, not an error.  A move whose limits cannot be
/// projected (no participating axis with a defined limit, or a
/// non-positive projected limit) is rejected as invalid input; the
/// S-curve generator's own failures pass through.
pub fn plan_move(
    p0: &TVector<Real>,
    p1: &TVector<Real>,
    requested_speed: Option<Real>,
    default_speed: Real,
    flow_rate: Real,
    speed_rate: Real,
    max_speed: &TVector<Real>,
    max_accel: &TVector<Real>,
    max_jerk: &TVector<Real>,
    steps_per_unit: Real,
    v_in: Real,
    v_out: Real,
) -> (r: Result<Option<Segment>, ProfileError>)
    ensures
        (r matches Ok(s) && s is None) <==> move_dist_spec(*p0, *p1).m() == 0,
        r matches Ok(Some(seg)) ==> ({
            let dir = move_dir_spec(*p0, *p1);
            let dist = move_dist_spec(*p0, *p1);
            let module = (match requested_speed {
                Some(s2) => s2,
                None => default_speed,
            }).mul_spec(speed_rate);
            let efeed = e_feed_spec(p0.e, p1.e, flow_rate);
            let clamped = clamped_speed_spec(
                speed_vector_spec(dir, efeed, module),
                *max_speed,
            );
            &&& seg.motion_profile.wf()
            &&& seg.motion_profile.distance == dist
            &&& seg.motion_profile.v_in == v_in
            &&& seg.motion_profile.v_out == v_out
            &&& vmin_spec(clamped) matches Some(vm) && seg.motion_profile.constraints.v_max == vm
            &&& project_limit_spec(dir, *max_accel) matches Some(am)
                && seg.motion_profile.constraints.a_max == am
            &&& project_limit_spec(dir, *max_jerk) matches Some(jm)
                && seg.motion_profile.constraints.j_max == jm
            &&& seg.segment_data.vdir == dir
            &&& seg.segment_data.dest_pos == *p1
            &&& seg.segment_data.total_steps as int == sps_of(dist, steps_per_unit)
            &&& seg.segment_data.speed_enter_sps as int == sps_of(v_in, steps_per_unit)
            &&& seg.segment_data.speed_exit_sps as int == sps_of(v_out, steps_per_unit)
        }),
        r is Err ==> move_dist_spec(*p0, *p1).m() != 0,
        ({
            let dir = move_dir_spec(*p0, *p1);
            let dist = move_dist_spec(*p0, *p1);
            let module = (match requested_speed {
                Some(s2) => s2,
                None => default_speed,
            }).mul_spec(speed_rate);
            let efeed = e_feed_spec(p0.e, p1.e, flow_rate);
            let clamped = clamped_speed_spec(speed_vector_spec(dir, efeed, module), *max_speed);
            &&& dist.m() != 0
            &&& (vmin_spec(clamped) is None || project_limit_spec(dir, *max_accel) is None
                || project_limit_spec(dir, *max_jerk) is None || invalid_input(
                dist,
                v_in,
                v_out,
                Constraints {
                    v_max: vmin_spec(clamped)->0,
                    a_max: project_limit_spec(dir, *max_accel)->0,
                    j_max: project_limit_spec(dir, *max_jerk)->0,
                },
            ))
        }) <==> (r matches Err(e) && e == ProfileError::InvalidInput),
        ({
            let dir = move_dir_spec(*p0, *p1);
            let dist = move_dist_spec(*p0, *p1);
            let module = (match requested_speed {
                Some(s2) => s2,
                None => default_speed,
            }).mul_spec(speed_rate);
            let efeed = e_feed_spec(p0.e, p1.e, flow_rate);
            let clamped = clamped_speed_spec(speed_vector_spec(dir, efeed, module), *max_speed);
            &&& dist.m() != 0
            &&& vmin_spec(clamped) is Some
            &&& project_limit_spec(dir, *max_accel) is Some
            &&& project_limit_spec(dir, *max_jerk) is Some
            &&& !invalid_input(
                dist,
                v_in,
                v_out,
                Constraints {
                    v_max: vmin_spec(clamped)->0,
                    a_max: project_limit_spec(dir, *max_accel)->0,
                    j_max: project_limit_spec(dir, *max_jerk)->0,
                },
            )
            &&& v_in == v_out
            &&& dist.m() * fp_scale() <= PLAN_LIMIT as int * v_in.m()
        }) ==> (r matches Ok(s) && s is Some),
{
    let (vdir, dist) = decompose_move(p0, p1);
    if dist.is_zero() {
        return Ok(None);
    }
    let base_speed: Real = match requested_speed {
        Some(s) => s,
        None => default_speed,
    };
    let module: Real = base_speed.mul_r(speed_rate);
    let e_delta: Option<Real> = match (p0.e, p1.e) {
        (Some(a), Some(b)) => {
            let d: Real = b.sub_r(a);
            if d.is_zero() {
                None
            } else {
                Some(d.mul_r(flow_rate))
            }
        },
        _ => None,
    };
    let speed_vector: TVector<Real> = vdir.with_coord(CoordSel::axis_e(), e_delta).abs()
        .mul_scalar(module);
    let clamped: TVector<Real> = speed_vector.clamp(*max_speed);
    let v_module: Real = match clamped.min() {
        Some(v) => v,
        None => {
            return Err(ProfileError::InvalidInput);
        },
    };
    let a_module: Real = match project_limit(&vdir, max_accel) {
        Some(a) => a,
        None => {
            return Err(ProfileError::InvalidInput);
        },
    };
    let j_module: Real = match project_limit(&vdir, max_jerk) {
        Some(j) => j,
        None => {
            return Err(ProfileError::InvalidInput);
        },
    };
    let constraints = Constraints { v_max: v_module, a_max: a_module, j_max: j_module };
    let profile: SCurveMotionProfile = match compute(dist, v_in, v_out, &constraints) {
        Ok(p) => p,
        Err(e) => {
            return Err(e);
        },
    };
    let data = SegmentData {
        speed_enter_sps: to_sps(v_in, steps_per_unit),
        speed_exit_sps: to_sps(v_out, steps_per_unit),
        total_steps: to_sps(dist, steps_per_unit),
        vdir,
        dest_pos: *p1,
    };
    Ok(Some(Segment::new(data, profile)))
}

} // verus!
