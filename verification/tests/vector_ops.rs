use printhor::fixed::Real;
use printhor::tgeo::{TVector, CoordSel};

fn r(n: i64) -> Real {
    Real::from_lit(n, 0)
}

fn v4(x: i64, y: i64, z: i64, e: i64) -> TVector<Real> {
    TVector::from_coords(Some(r(x)), Some(r(y)), Some(r(z)), Some(r(e)))
}

#[test]
fn selector_unions_and_containment() {
    let xyz = CoordSel::xyz();
    assert!(CoordSel::all().contains(xyz));
    assert!(!xyz.contains(CoordSel::all()));
    assert!(xyz.contains(CoordSel::axis_x()));
    assert!(!xyz.contains(CoordSel::axis_e()));
    let u = CoordSel::axis_x().union(CoordSel::axis_e());
    assert!(u.x && u.e && !u.y && !u.z);
}

// An operation restricted to a selector never touches an axis outside it.
#[test]
fn selection_leaves_unselected_axes_alone() {
    let v = v4(1, 2, 3, 4);
    let w = v.with_coord(CoordSel::axis_x(), Some(r(9)));
    assert_eq!(w.x, Some(r(9)));
    assert_eq!(w.y, Some(r(2)));
    assert_eq!(w.z, Some(r(3)));
    assert_eq!(w.e, Some(r(4)));

    let mut m = v4(1, 2, 3, 4);
    m.set_coord(CoordSel::axis_y(), None);
    assert_eq!(m.x, Some(r(1)));
    assert_eq!(m.y, None);
    assert_eq!(m.z, Some(r(3)));
    assert_eq!(m.e, Some(r(4)));

    let mut a = v4(1, 2, 3, 4);
    let other = v4(10, 20, 30, 40);
    a.assign(CoordSel::xyz(), &other);
    assert_eq!(a.x, Some(r(10)));
    assert_eq!(a.y, Some(r(20)));
    assert_eq!(a.z, Some(r(30)));
    assert_eq!(a.e, Some(r(4)));

    let mut b = v4(1, 2, 3, 4);
    let partial = TVector::from_coords(Some(r(7)), None, None, Some(r(8)));
    b.assign_if_set(CoordSel::all(), &partial);
    assert_eq!(b.x, Some(r(7)));
    assert_eq!(b.y, Some(r(2)));
    assert_eq!(b.z, Some(r(3)));
    assert_eq!(b.e, Some(r(8)));

    let c = v4(5, 6, 7, 8).clamp_coord(CoordSel::axis_z(), r(1));
    assert_eq!(c.x, Some(r(5)));
    assert_eq!(c.y, Some(r(6)));
    assert_eq!(c.z, Some(r(1)));
    assert_eq!(c.e, Some(r(8)));

    let d = v4(1, -2, 3, -4).map_coord(CoordSel::xyz(), |val, _sel| Some(val.abs_r()));
    assert_eq!(d.x, Some(r(1)));
    assert_eq!(d.y, Some(r(2)));
    assert_eq!(d.z, Some(r(3)));
    assert_eq!(d.e, Some(r(-4)));
}

// Arithmetic propagates undefined axes; division by zero or undefined
// yields undefined, never a fault.
#[test]
fn arithmetic_propagates_undefined() {
    let a = TVector::from_coords(Some(r(1)), None, Some(r(3)), Some(r(4)));
    let b = TVector::from_coords(Some(r(10)), Some(r(20)), None, Some(r(40)));
    let s = a.vadd(&b);
    assert_eq!(s.x, Some(r(11)));
    assert_eq!(s.y, None);
    assert_eq!(s.z, None);
    assert_eq!(s.e, Some(r(44)));

    let d = a.vsub(&b);
    assert_eq!(d.x, Some(r(-9)));
    assert_eq!(d.y, None);
    assert_eq!(d.z, None);

    let m = a.vmul(&b);
    assert_eq!(m.x, Some(r(10)));
    assert_eq!(m.y, None);
    assert_eq!(m.e, Some(r(160)));

    let q = v4(8, 9, 10, 11).vdiv(&TVector::from_coords(Some(r(2)), Some(r(0)), None, Some(r(11))));
    assert_eq!(q.x, Some(r(4)));
    assert_eq!(q.y, None); // divided by zero: undefined, no fault
    assert_eq!(q.z, None); // divided by undefined: undefined
    assert_eq!(q.e, Some(r(1)));

    let z = v4(1, 2, 3, 4).div_scalar(Real::zero());
    assert_eq!(z.x, None);
    assert_eq!(z.y, None);
    assert_eq!(z.z, None);
    assert_eq!(z.e, None);
}

// The zero vector decomposes into (all-undefined, zero), never a fault.
#[test]
fn decompose_normal_of_zero_vector() {
    let (dir, norm) = TVector::<Real>::zero().decompose_normal();
    assert_eq!(dir.x, None);
    assert_eq!(dir.y, None);
    assert_eq!(dir.z, None);
    assert_eq!(dir.e, None);
    assert_eq!(norm.v, 0);

    let (dir2, norm2) = TVector::<Real>::nan().decompose_normal();
    assert_eq!(dir2.x, None);
    assert_eq!(norm2.v, 0);
}

#[test]
fn decompose_normal_of_axis_move() {
    let v = TVector::from_coords(Some(r(20)), None, None, None);
    let (dir, norm) = v.decompose_normal();
    assert_eq!(norm.v, 20_000_000);
    assert_eq!(dir.x, Some(r(1)));
    assert_eq!(dir.y, None);
    assert_eq!(dir.z, None);
    assert_eq!(dir.e, None);
}

#[test]
fn norm_of_three_four_is_five() {
    let v = TVector::from_coords(Some(r(3)), Some(r(4)), None, None);
    assert_eq!(v.norm2().unwrap().v, 5_000_000);
    let u = v.unit();
    assert_eq!(u.x, Some(Real::from_lit(6, 1)));
    assert_eq!(u.y, Some(Real::from_lit(8, 1)));
    assert_eq!(u.z, None);
}

// Clamping a speed vector keeps the smaller value per axis; an absent
// axis stays undefined, not zero.
#[test]
fn clamp_keeps_smaller_and_preserves_undefined() {
    let speed = TVector::from_coords(Some(r(1000)), None, None, None);
    let max_speed = v4(800, 8, 8, 2);
    let clamped = speed.clamp(max_speed);
    assert_eq!(clamped.x, Some(r(800)));
    assert_eq!(clamped.y, None);
    assert_eq!(clamped.z, None);
    assert_eq!(clamped.e, None);

    let below = TVector::from_coords(Some(r(500)), None, None, None).clamp(max_speed);
    assert_eq!(below.x, Some(r(500)));

    // The clamp keeps the smaller magnitude, signed with the axis' own
    // direction: a negative axis is limited to minus the bound.
    let reverse = TVector::from_coords(Some(r(-1000)), Some(r(-5)), None, None).clamp(max_speed);
    assert_eq!(reverse.x, Some(r(-800)));
    assert_eq!(reverse.y, Some(r(-5)));

    let capped = TVector::from_coords(Some(r(-7)), Some(r(4)), None, None)
        .clamp_coord(printhor::tgeo::CoordSel::all(), r(3));
    assert_eq!(capped.x, Some(r(-3)));
    assert_eq!(capped.y, Some(r(3)));
}

#[test]
fn reductions_over_defined_axes() {
    let v = TVector::from_coords(Some(r(5)), Some(r(-3)), None, Some(r(9)));
    assert_eq!(v.max().unwrap().v, 9_000_000);
    assert_eq!(v.min().unwrap().v, -3_000_000);
    assert_eq!(v.sum().v, 11_000_000);
    let none: TVector<Real> = TVector::nan();
    assert!(none.max().is_none());
    assert!(none.min().is_none());
    assert_eq!(none.sum().v, 0);
}

#[test]
fn map_helpers() {
    let v = TVector::from_coords(Some(r(2)), None, Some(r(-2)), None);
    let filled = v.map_nan(r(7));
    assert_eq!(filled.y, Some(r(7)));
    assert_eq!(filled.x, Some(r(2)));
    let tagged = v.map_val(r(1));
    assert_eq!(tagged.x, Some(r(1)));
    assert_eq!(tagged.y, None);
    let abs = v.abs();
    assert_eq!(abs.z, Some(r(2)));
    let doubled = v.mul_scalar(r(2));
    assert_eq!(doubled.x, Some(r(4)));
    assert_eq!(doubled.z, Some(r(-4)));
    let mapped = v.map_coords(|val: Real| if val.is_negative() { None } else { Some(val) });
    assert_eq!(mapped.x, Some(r(2)));
    assert_eq!(mapped.z, None);
    let halved = v.div_scalar(r(2));
    assert_eq!(halved.x, Some(r(1)));
    assert_eq!(halved.z, Some(r(-1)));
    let powed = v.pow(2);
    assert_eq!(powed.x, Some(r(4)));
    let roots = TVector::from_coords(Some(r(4)), Some(r(-4)), None, None).sqrt();
    assert_eq!(roots.x, Some(r(2)));
    assert_eq!(roots.y, None);
    let rounded = TVector::from_coords(Some(Real::from_lit(1_234_567, 6)), None, None, None).rdp(2);
    assert_eq!(rounded.x, Some(Real::from_lit(123, 2)));
}

#[test]
fn integer_vectors_saturate_instead_of_overflowing() {
    let a: TVector<u32> = TVector::from_coords(Some(4_000_000_000), Some(5), None, Some(0));
    let b: TVector<u32> = TVector::from_coords(Some(1_000_000_000), Some(10), Some(1), Some(3));
    let s = a.vadd(&b);
    assert_eq!(s.x, Some(u32::MAX));
    assert_eq!(s.y, Some(15));
    assert_eq!(s.z, None);
    let d = a.vsub(&b);
    assert_eq!(d.y, Some(0)); // saturates at zero rather than wrapping
    let i: TVector<i32> = TVector::from_coords(Some(-5), Some(3), None, None);
    assert_eq!(i.abs().x, Some(5));
    assert_eq!(i.sum(), -2);
}
