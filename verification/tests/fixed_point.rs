use rustcade::fixed::{
    at_least, at_most, clamp, magnitude, minus, negate, plus, scale, times, LIMIT, ONE,
};

#[test]
fn plus_and_minus_are_exact_in_range() {
    assert_eq!(plus(1_500_000, 2_250_000), 3_750_000);
    assert_eq!(minus(1_500_000, 2_250_000), -750_000);
    assert_eq!(plus(-3, 3), 0);
}

#[test]
fn plus_and_minus_saturate_at_the_limit() {
    assert_eq!(plus(LIMIT, 1), LIMIT);
    assert_eq!(minus(-LIMIT, 5), -LIMIT);
    assert_eq!(plus(i64::MAX, i64::MAX), LIMIT);
    assert_eq!(minus(i64::MIN, i64::MAX), -LIMIT);
    assert_eq!(plus(i64::MAX, 0), LIMIT);
}

#[test]
fn times_rounds_toward_zero() {
    assert_eq!(times(1_500_000, 2_500_000), 3_750_000);
    assert_eq!(times(-1_500_001, 333_333), -499_999);
    assert_eq!(times(7, 3), 0);
    assert_eq!(times(-7, 300_000), -2);
    assert_eq!(times(123_456, ONE), 123_456);
}

#[test]
fn times_saturates_at_the_limit() {
    assert_eq!(times(LIMIT, LIMIT), LIMIT);
    assert_eq!(times(-LIMIT, LIMIT), -LIMIT);
    assert_eq!(times(i64::MIN, i64::MIN), LIMIT);
    assert_eq!(times(i64::MIN, i64::MAX), -LIMIT);
}

#[test]
fn scale_rounds_toward_zero() {
    assert_eq!(scale(10, 3, 10), 3);
    assert_eq!(scale(-10, 3, 10), -3);
    assert_eq!(scale(7, 1, 2), 3);
    assert_eq!(scale(-7, 1, 2), -3);
    assert_eq!(scale(1_000, -2, 1), -2_000);
    assert_eq!(scale(i64::MAX, i64::MAX, 1), LIMIT);
}

#[test]
fn magnitude_and_negate_saturate() {
    assert_eq!(magnitude(-5), 5);
    assert_eq!(magnitude(5), 5);
    assert_eq!(magnitude(i64::MIN), LIMIT);
    assert_eq!(negate(5), -5);
    assert_eq!(negate(i64::MIN), LIMIT);
    assert_eq!(negate(negate(-77)), -77);
}

#[test]
fn clamp_and_bounds() {
    assert_eq!(clamp(5, 0, 3), 3);
    assert_eq!(clamp(-5, 0, 3), 0);
    assert_eq!(clamp(2, 0, 3), 2);
    assert_eq!(clamp(9, 4, 4), 4);
    assert_eq!(at_least(2, 5), 5);
    assert_eq!(at_least(7, 5), 7);
    assert_eq!(at_most(2, 5), 2);
    assert_eq!(at_most(7, 5), 5);
}
