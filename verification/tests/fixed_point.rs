use printhor::fixed::Real;

#[test]
fn from_lit_builds_exact_mantissas() {
    assert_eq!(Real::from_lit(20, 0).v, 20_000_000);
    assert_eq!(Real::from_lit(15, 1).v, 1_500_000);
    assert_eq!(Real::from_lit(-25, 1).v, -2_500_000);
    assert_eq!(Real::from_lit(1_234_567, 6).v, 1_234_567);
    assert_eq!(Real::zero().v, 0);
    assert_eq!(Real::one().v, 1_000_000);
}

#[test]
fn addition_and_subtraction_are_exact() {
    let a = Real::from_lit(3, 0);
    let b = Real::from_lit(45, 1);
    assert_eq!(a.add_r(b).v, 7_500_000);
    assert_eq!(a.sub_r(b).v, -1_500_000);
    assert_eq!(b.neg_r().v, -4_500_000);
    assert_eq!(b.neg_r().abs_r().v, 4_500_000);
}

#[test]
fn multiplication_rescales() {
    let a = Real::from_lit(15, 1);
    let b = Real::from_lit(2, 0);
    assert_eq!(a.mul_r(b).v, 3_000_000);
    let c = Real::from_lit(-15, 1);
    assert_eq!(c.mul_r(b).v, -3_000_000);
}

#[test]
fn division_truncates_toward_zero() {
    let one = Real::from_lit(1, 0);
    let three = Real::from_lit(3, 0);
    assert_eq!(one.div_r(three).v, 333_333);
    assert_eq!(one.neg_r().div_r(three).v, -333_333);
    let twenty = Real::from_lit(20, 0);
    assert_eq!(twenty.div_r(twenty).v, 1_000_000);
}

#[test]
fn sqrt_is_the_integer_square_root() {
    assert_eq!(Real::from_lit(4, 0).sqrt_r().unwrap().v, 2_000_000);
    assert_eq!(Real::from_lit(400, 0).sqrt_r().unwrap().v, 20_000_000);
    assert_eq!(Real::from_lit(2, 0).sqrt_r().unwrap().v, 1_414_213);
    assert_eq!(Real::from_lit(0, 0).sqrt_r().unwrap().v, 0);
    assert!(Real::from_lit(-1, 0).sqrt_r().is_none());
}

#[test]
fn rounding_to_decimal_places() {
    assert_eq!(Real::from_lit(1_234_567, 6).rdp(2).v, 1_230_000);
    assert_eq!(Real::from_lit(1_235_000, 6).rdp(2).v, 1_240_000);
    assert_eq!(Real::from_lit(-1_235_000, 6).rdp(2).v, -1_240_000);
    assert_eq!(Real::from_lit(1_234_567, 6).rdp(6).v, 1_234_567);
}

#[test]
fn integer_conversions() {
    assert_eq!(Real::from_lit(25, 1).to_i64(), 2);
    assert_eq!(Real::from_lit(-25, 1).to_i64(), -2);
    assert_eq!(Real::from_lit(25, 1).round_to_i64(), 3);
    assert_eq!(Real::from_lit(-25, 1).round_to_i64(), -3);
    assert_eq!(Real::from_lit(24, 1).round_to_i64(), 2);
}

#[test]
fn order_and_extrema() {
    let a = Real::from_lit(1, 0);
    let b = Real::from_lit(2, 0);
    assert!(a.lt(&b));
    assert!(a.le(&b));
    assert!(!b.lt(&a));
    assert_eq!(a.max_r(b).v, b.v);
    assert_eq!(a.min_r(b).v, a.v);
    assert!(Real::from_lit(-1, 0).is_negative());
    assert!(Real::zero().is_zero());
}
