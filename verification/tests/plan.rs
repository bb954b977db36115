use printhor::fixed::Real;
use printhor::tgeo::TVector;
use printhor::planner::ProfileError;
use printhor::segment::{decompose_move, plan_move, project_limit, Segment, SegmentData};
use printhor::control::XYZEFS;
use printhor::sdcard::{SDCardError, SDDirEntry, SDEntryType, DirectoryRef};
use printhor::sampler::PlanProfile;

fn r(n: i64) -> Real {
    Real::from_lit(n, 0)
}

// A move with only the extruder axis defined decomposes into an
// all-undefined direction and produces no positional segment.
#[test]
fn extrusion_only_move_yields_no_segment() {
    let p0: TVector<Real> = TVector::zero();
    let p1: TVector<Real> = TVector::from_coords(None, None, None, Some(r(1)));
    let (dir, dist) = decompose_move(&p0, &p1);
    assert!(dir.x.is_none() && dir.y.is_none() && dir.z.is_none() && dir.e.is_none());
    assert_eq!(dist.v, 0);

    let max_speed = TVector::from_coords(Some(r(800)), Some(r(8)), Some(r(8)), Some(r(2)));
    let max_accel = TVector::from_coords(Some(r(64)), Some(r(64)), Some(r(64)), Some(r(16)));
    let max_jerk = TVector::from_coords(Some(r(128)), Some(r(128)), Some(r(128)), Some(r(32)));
    let planned = plan_move(
        &p0,
        &p1,
        Some(r(700)),
        r(300),
        Real::one(),
        Real::one(),
        &max_speed,
        &max_accel,
        &max_jerk,
        r(100),
        r(0),
        r(0),
    );
    assert!(matches!(planned, Ok(None)));
}

// A straight X move is planned end to end into a segment whose profile
// covers the distance and whose step counts come from the calibration.
#[test]
fn single_axis_move_plans_a_segment() {
    let p0: TVector<Real> = TVector::zero();
    let p1: TVector<Real> = TVector::from_coords(Some(r(20)), Some(r(0)), Some(r(0)), None);
    let max_speed = TVector::from_coords(Some(r(800)), Some(r(8)), Some(r(8)), Some(r(2)));
    let max_accel = TVector::from_coords(Some(r(64)), Some(r(64)), Some(r(64)), Some(r(16)));
    let max_jerk = TVector::from_coords(Some(r(128)), Some(r(128)), Some(r(128)), Some(r(32)));
    let seg = plan_move(
        &p0,
        &p1,
        Some(r(700)),
        r(300),
        Real::one(),
        Real::one(),
        &max_speed,
        &max_accel,
        &max_jerk,
        r(100),
        r(0),
        r(0),
    )
    .unwrap()
    .unwrap();

    // Direction: pure +X unit vector.
    assert_eq!(seg.segment_data.vdir.x, Some(r(1)));
    assert!(seg.segment_data.vdir.y.is_none());
    assert!(seg.segment_data.vdir.z.is_none());
    // 20 units at 100 steps per unit.
    assert_eq!(seg.segment_data.total_steps, 2000);
    assert_eq!(seg.segment_data.speed_enter_sps, 0);
    assert_eq!(seg.segment_data.speed_exit_sps, 0);
    // The profile covers the distance.
    let total_t = seg.motion_profile.total_time();
    let end_pos = seg.motion_profile.displacement_at(total_t);
    assert!((end_pos.v - 20_000_000).abs() <= 10_001);
    // Projected limits: X axis dominates with |dir| = 1.
    assert_eq!(seg.motion_profile.constraints.v_max.v, 700_000_000);
    assert_eq!(seg.motion_profile.constraints.a_max.v, 64_000_000);
    assert_eq!(seg.motion_profile.constraints.j_max.v, 128_000_000);
}

// A move in the negative direction gets a negative unit direction and a
// positive distance and step count.
#[test]
fn negative_direction_move_plans_with_positive_distance() {
    let p0: TVector<Real> = TVector::from_coords(Some(r(20)), Some(r(0)), None, None);
    let p1: TVector<Real> = TVector::zero();
    let (dir, dist) = decompose_move(&p0, &p1);
    assert_eq!(dist.v, 20_000_000);
    assert_eq!(dir.x, Some(r(-1)));
    assert!(dir.y.is_none());

    let max_speed = TVector::from_coords(Some(r(800)), Some(r(8)), Some(r(8)), Some(r(2)));
    let max_accel = TVector::from_coords(Some(r(64)), Some(r(64)), Some(r(64)), Some(r(16)));
    let max_jerk = TVector::from_coords(Some(r(128)), Some(r(128)), Some(r(128)), Some(r(32)));
    let seg = plan_move(
        &p0,
        &p1,
        Some(r(700)),
        r(300),
        Real::one(),
        Real::one(),
        &max_speed,
        &max_accel,
        &max_jerk,
        r(100),
        r(0),
        r(0),
    )
    .unwrap()
    .unwrap();
    assert_eq!(seg.segment_data.vdir.x, Some(r(-1)));
    assert_eq!(seg.segment_data.total_steps, 2000);
    let total_t = seg.motion_profile.total_time();
    let end_pos = seg.motion_profile.displacement_at(total_t);
    assert!((end_pos.v - 20_000_000).abs() <= 10_001);
}

// Projection takes the tightest axis: a diagonal move is capped by the
// slower axis scaled through its direction component.
#[test]
fn projection_takes_the_minimum_ceiling() {
    let dir = TVector::from_coords(
        Some(Real::from_lit(6, 1)),
        Some(Real::from_lit(8, 1)),
        None,
        None,
    );
    let limits = TVector::from_coords(Some(r(600)), Some(r(40)), Some(r(8)), None);
    // Ceilings: 600/0.6 = 1000, 40/0.8 = 50; Z does not participate.
    let lim = project_limit(&dir, &limits).unwrap();
    assert_eq!(lim.v, 50_000_000);

    // A direction axis with zero component imposes no ceiling.
    let flat = TVector::from_coords(Some(r(0)), Some(r(1)), None, None);
    let lim2 = project_limit(&flat, &limits).unwrap();
    assert_eq!(lim2.v, 40_000_000);
}

// The sampler walks the whole profile at a fixed step.
#[test]
fn sampler_produces_a_monotone_time_series() {
    let p0: TVector<Real> = TVector::zero();
    let p1: TVector<Real> = TVector::from_coords(Some(r(20)), None, None, None);
    let max_speed = TVector::from_coords(Some(r(800)), Some(r(8)), Some(r(8)), Some(r(2)));
    let max_accel = TVector::from_coords(Some(r(64)), Some(r(64)), Some(r(64)), Some(r(16)));
    let max_jerk = TVector::from_coords(Some(r(128)), Some(r(128)), Some(r(128)), Some(r(32)));
    let seg = plan_move(
        &p0,
        &p1,
        Some(r(700)),
        r(300),
        Real::one(),
        Real::one(),
        &max_speed,
        &max_accel,
        &max_jerk,
        r(100),
        r(0),
        r(0),
    )
    .unwrap()
    .unwrap();
    let plan = PlanProfile::new(seg.motion_profile, Real::from_lit(1, 2));
    let series = plan.sample_series();
    assert!(series.len() > 2);
    let mut prev_t: i64 = -1;
    let mut prev_pos: i64 = 0;
    for &(t, pos, vel, _acc) in &series {
        assert!(t.v > prev_t);
        assert!(pos.v >= prev_pos); // position never runs backwards
        assert!(vel.v >= 0);
        prev_t = t.v;
        prev_pos = pos.v;
    }
    // The last sample has essentially covered the whole distance.
    let (_, last_pos, _, _) = series[series.len() - 1];
    assert!((last_pos.v - 20_000_000).abs() <= 20_000);
}

// Segment construction is a plain binding of data to profile.
#[test]
fn segment_binds_data_and_profile() {
    let c = printhor::planner::Constraints { v_max: r(10), a_max: r(10), j_max: r(10) };
    let prof = printhor::planner::compute(r(5), r(0), r(0), &c).unwrap();
    let data = SegmentData {
        speed_enter_sps: 0,
        speed_exit_sps: 0,
        total_steps: 500,
        vdir: TVector::from_coords(Some(r(1)), None, None, None),
        dest_pos: TVector::from_coords(Some(r(5)), None, None, None),
    };
    let seg = Segment::new(data, prof);
    assert_eq!(seg.segment_data.total_steps, 500);
    assert!(seg.motion_profile.phases.len() >= 1);
}

// An unplannable move is reported, not planned wrongly: boundary
// velocity above the projected limit is invalid input.
#[test]
fn entry_velocity_above_limit_is_reported() {
    let p0: TVector<Real> = TVector::zero();
    let p1: TVector<Real> = TVector::from_coords(Some(r(20)), None, None, None);
    let max_speed = TVector::from_coords(Some(r(100)), None, None, None);
    let max_accel = TVector::from_coords(Some(r(64)), None, None, None);
    let max_jerk = TVector::from_coords(Some(r(128)), None, None, None);
    let planned = plan_move(
        &p0,
        &p1,
        Some(r(50)),
        r(300),
        Real::one(),
        Real::one(),
        &max_speed,
        &max_accel,
        &max_jerk,
        r(100),
        r(200),
        r(0),
    );
    assert!(matches!(planned, Err(ProfileError::InvalidInput)));
}

#[test]
fn command_bundle_with_x_replaces_only_x() {
    let cmd = XYZEFS::default();
    let moved = cmd.with_x(42);
    assert_eq!(moved.x.unwrap().v, 42_000_000);
    assert!(moved.y.is_none());
    assert!(moved.e.is_none());
}

#[test]
fn storage_card_entry_values() {
    let entry = SDDirEntry {
        name: String::from("MODEL.GCO"),
        entry_type: SDEntryType::FILE,
        size: 1024,
    };
    assert_eq!(entry.size, 1024);
    assert!(matches!(entry.entry_type, SDEntryType::FILE));
    let d = DirectoryRef { idx: 3 };
    assert_eq!(d.idx, 3);
    assert!(matches!(SDCardError::NotFound, SDCardError::NotFound));
}
