use pywr_core::value::{divide, minus, narrow, negate, plus, ratio, sum, times, UNIT};

fn v(x: f64) -> i64 {
    (x * 1e9).round() as i64
}

#[test]
fn unit_is_a_billion() {
    assert_eq!(UNIT, 1_000_000_000);
    assert_eq!(v(1.0), UNIT);
}

#[test]
fn plus_and_minus_are_exact_within_range() {
    assert_eq!(plus(v(1.5), v(2.25)), v(3.75));
    assert_eq!(minus(v(1.5), v(2.25)), v(-0.75));
    assert_eq!(negate(v(2.0)), v(-2.0));
}

#[test]
fn sums_stay_at_the_ends_of_the_range() {
    assert_eq!(plus(i64::MAX, 1), i64::MAX);
    assert_eq!(minus(i64::MIN, 1), i64::MIN);
    assert_eq!(negate(i64::MIN), i64::MAX);
    assert_eq!(narrow(i128::from(i64::MAX) + 5), i64::MAX);
    assert_eq!(narrow(i128::from(i64::MIN) - 5), i64::MIN);
    assert_eq!(narrow(-7), -7);
}

#[test]
fn times_is_the_fixed_point_product() {
    assert_eq!(times(v(10.0), v(0.1)), v(1.0));
    assert_eq!(times(v(-3.0), v(2.5)), v(-7.5));
    assert_eq!(times(v(100.0), v(0.5)), v(50.0));
    // One billionth times one billionth rounds towards zero.
    assert_eq!(times(1, 1), 0);
    assert_eq!(times(-1, 1), 0);
    assert_eq!(times(i64::MAX, i64::MAX), i64::MAX);
    assert_eq!(times(i64::MAX, i64::MIN), i64::MIN);
}

#[test]
fn ratio_is_the_fixed_point_quotient() {
    assert_eq!(ratio(v(50.0), v(100.0)), v(0.5));
    assert_eq!(ratio(v(1.0), v(3.0)), 333_333_333);
    assert_eq!(ratio(v(-1.0), v(3.0)), -333_333_333);
    assert_eq!(ratio(v(1.0), v(-3.0)), -333_333_333);
}

#[test]
fn ratio_by_zero_is_zero() {
    assert_eq!(ratio(v(5.0), 0), 0);
    assert_eq!(ratio(0, 0), 0);
}

#[test]
fn divide_rounds_towards_zero() {
    assert_eq!(divide(7, 2), 3);
    assert_eq!(divide(-7, 2), -3);
    assert_eq!(divide(7, -2), -3);
    assert_eq!(divide(-7, -2), 3);
}

#[test]
fn sum_adds_up_a_list() {
    assert_eq!(sum(&vec![v(10.0), v(2.0)]), v(12.0));
    assert_eq!(sum(&vec![]), 0);
    // The sum is exact before it is held to the range.
    assert_eq!(sum(&vec![i64::MAX, i64::MAX, i64::MIN, i64::MIN]), -2);
}
