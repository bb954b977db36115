use printhor::fixed::Real;
use printhor::planner::{compute, Constraints, ProfileError, DISP_TOL};

fn r(n: i64) -> Real {
    Real::from_lit(n, 0)
}

fn limits(v: i64, a: i64, j: i64) -> Constraints {
    Constraints { v_max: r(v), a_max: r(a), j_max: r(j) }
}

// End-to-end scenario: 20 units from rest to rest under {700, 64, 128}.
#[test]
fn short_move_from_rest_covers_distance_exactly() {
    let c = limits(700, 64, 128);
    let prof = compute(r(20), r(0), r(0), &c).unwrap();
    assert!(prof.phases.len() >= 2);

    // Total integrated displacement equals 20 units within the tolerance.
    let total_t = prof.total_time();
    let end_pos = prof.displacement_at(total_t);
    assert!((end_pos.v - 20_000_000).abs() <= DISP_TOL + 1);

    // Starts at the entry velocity and returns to (essentially) zero.
    assert_eq!(prof.velocity_at(r(0)).v, 0);
    let vend = prof.velocity_at(total_t);
    assert!(vend.v.abs() <= 4_000);

    // Velocity never exceeds v_max and never goes negative, sampled
    // densely through the whole profile.
    let step = Real::from_lit(1, 2); // 0.01 time units
    let mut t = Real::from_lit(0, 0);
    let mut peak: i64 = 0;
    while t.le(&total_t) {
        let v = prof.velocity_at(t);
        assert!(v.v >= 0);
        assert!(v.v <= 700_000_000);
        if v.v > peak {
            peak = v.v;
        }
        t = t.add_r(step);
    }
    assert!(peak > 0);

    // A move too short to reach v_max never cruises at v_max; the
    // generator emits no zero-length phases.
    for ph in &prof.phases {
        assert!(ph.t.v > 0);
        if ph.a0.v == 0 && ph.j.v == 0 && ph.t.v > 0 {
            assert!(ph.v0.v < 700_000_000);
        }
    }
}

// Acceleration is continuous: between samples one jerk-step apart the
// acceleration changes by at most j_max * dt plus a rounding quantum.
#[test]
fn acceleration_has_no_jumps_beyond_the_jerk_limit() {
    let c = limits(700, 64, 128);
    let prof = compute(r(20), r(0), r(0), &c).unwrap();
    let total_t = prof.total_time();
    let step = Real::from_lit(1, 3); // 0.001 time units
    // j_max * dt = 128 * 0.001 = 0.128 units/s^2; allow rounding slack.
    let max_jump: i64 = 128_000 + 4_000;
    let mut t = Real::from_lit(0, 0);
    let mut prev = prof.acceleration_at(t);
    let mut max_acc: i64 = 0;
    while t.le(&total_t) {
        let a = prof.acceleration_at(t);
        assert!((a.v - prev.v).abs() <= max_jump);
        if a.v.abs() > max_acc {
            max_acc = a.v.abs();
        }
        prev = a;
        t = t.add_r(step);
    }
    // |acceleration| stays within a_max.
    assert!(max_acc <= 64_000_000);
}

// A long move cruises: the constant-velocity phase appears and the
// distance invariant still holds.
#[test]
fn long_move_reaches_cruise() {
    let c = limits(10, 64, 128);
    let prof = compute(r(100), r(0), r(0), &c).unwrap();
    let total_t = prof.total_time();
    let end_pos = prof.displacement_at(total_t);
    assert!((end_pos.v - 100_000_000).abs() <= DISP_TOL + 1);
    let has_cruise = prof.phases.iter().any(|p| p.a0.v == 0 && p.j.v == 0 && p.t.v > 0);
    assert!(has_cruise);
}

// Boundary velocities other than rest are honoured.
#[test]
fn boundary_velocities_are_respected() {
    let c = limits(200, 50, 100);
    let prof = compute(r(300), r(40), r(10), &c).unwrap();
    assert_eq!(prof.velocity_at(r(0)).v, 40_000_000);
    let total_t = prof.total_time();
    let vend = prof.velocity_at(total_t);
    assert!((vend.v - 10_000_000).abs() <= 4_000);
    let end_pos = prof.displacement_at(total_t);
    assert!((end_pos.v - 300_000_000).abs() <= DISP_TOL + 1);
}

// A pure cruise: equal boundary velocities at the cap.
#[test]
fn equal_boundary_velocities_at_the_cap_cruise_through() {
    let c = limits(700, 64, 128);
    let prof = compute(r(20), r(700), r(700), &c).unwrap();
    let total_t = prof.total_time();
    let end_pos = prof.displacement_at(total_t);
    assert!((end_pos.v - 20_000_000).abs() <= DISP_TOL + 1);
    assert_eq!(prof.velocity_at(r(0)).v, 700_000_000);
}

// A constant-velocity move below the cap is planned as a single cruise
// phase whose duration is distance over velocity.
#[test]
fn constant_velocity_move_is_a_single_cruise() {
    let c = limits(700, 64, 128);
    let prof = compute(r(50), r(5), r(5), &c).unwrap();
    assert_eq!(prof.phases.len(), 1);
    let ph = prof.phases[0];
    assert_eq!(ph.v0.v, 5_000_000);
    assert_eq!(ph.a0.v, 0);
    assert_eq!(ph.j.v, 0);
    // 50 units at 5 units per second: 10 seconds.
    assert_eq!(ph.t.v, 10_000_000);
    let total_t = prof.total_time();
    assert_eq!(prof.displacement_at(total_t).v, 50_000_000);
    assert_eq!(prof.velocity_at(r(1)).v, 5_000_000);
}

// Malformed requests are rejected as invalid input, exactly.
#[test]
fn invalid_inputs_are_rejected() {
    let c = limits(700, 64, 128);
    assert!(matches!(compute(r(-1), r(0), r(0), &c), Err(ProfileError::InvalidInput)));
    assert!(matches!(compute(r(20), r(701), r(0), &c), Err(ProfileError::InvalidInput)));
    assert!(matches!(compute(r(20), r(0), r(701), &c), Err(ProfileError::InvalidInput)));
    assert!(matches!(
        compute(r(20), r(0), r(0), &limits(0, 64, 128)),
        Err(ProfileError::InvalidInput)
    ));
    assert!(matches!(
        compute(r(20), r(0), r(0), &limits(700, 64, 0)),
        Err(ProfileError::InvalidInput)
    ));
    // A well-formed request is not.
    assert!(compute(r(20), r(0), r(0), &c).is_ok());
}

// The generator converges across a grid of clearly feasible requests:
// generous distances, boundary velocities well under the limits.  Every
// one must come back Ok with the distance covered and the exit velocity
// met within the stated tolerances.
#[test]
fn generator_converges_on_feasible_requests() {
    let distances: [i64; 4] = [5, 20, 100, 400];
    let boundaries: [(i64, i64); 4] = [(0, 0), (0, 2), (3, 1), (5, 5)];
    let limit_sets: [(i64, i64, i64); 3] = [(700, 64, 128), (200, 1000, 500), (50, 10, 20)];
    for &d in distances.iter() {
        for &(vi, vo) in boundaries.iter() {
            for &(vm, am, jm) in limit_sets.iter() {
                let c = limits(vm, am, jm);
                let prof = compute(r(d), r(vi), r(vo), &c).unwrap();
                let total_t = prof.total_time();
                let end_pos = prof.displacement_at(total_t);
                assert!((end_pos.v - d * 1_000_000).abs() <= DISP_TOL + 1);
                assert_eq!(prof.velocity_at(Real::from_lit(0, 0)).v, vi * 1_000_000);
                let vend = prof.velocity_at(total_t);
                // vel_tol for the largest limits here is under 0.025 u/s.
                assert!((vend.v - vo * 1_000_000).abs() <= 25_000);
            }
        }
    }
}

// A zero-distance move between equal boundary velocities is trivially
// plannable.
#[test]
fn zero_distance_zero_velocity_is_trivial() {
    let c = limits(700, 64, 128);
    let prof = compute(r(0), r(0), r(0), &c).unwrap();
    let total_t = prof.total_time();
    assert_eq!(total_t.v, 0);
    assert_eq!(prof.displacement_at(total_t).v, 0);
}
