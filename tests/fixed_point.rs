use spirals::{half_diagonal, isqrt, wrap_range};

#[test]
fn wrap_keeps_values_inside_the_range() {
    assert_eq!(wrap_range(5, 0, 10), 5);
    assert_eq!(wrap_range(0, 0, 10), 0);
}

#[test]
fn wrap_folds_values_above_the_range() {
    assert_eq!(wrap_range(10, 0, 10), 0);
    assert_eq!(wrap_range(12, 0, 10), 2);
    assert_eq!(wrap_range(35, 0, 10), 5);
    assert_eq!(wrap_range(1_050, 100, 1_000), 150);
}

#[test]
fn wrap_folds_negative_values_by_floor() {
    assert_eq!(wrap_range(-3, 0, 10), 7);
    assert_eq!(wrap_range(-10, 0, 10), 0);
    assert_eq!(wrap_range(-11, 0, 10), 9);
    assert_eq!(wrap_range(-5, -20, -10), -15);
}

#[test]
fn wrap_is_idempotent_and_in_range() {
    for v in -2_000i64..2_000 {
        let once = wrap_range(v, -37, 451);
        assert!(once >= -37 && once < 451);
        assert_eq!(wrap_range(once, -37, 451), once);
    }
}

#[test]
fn wrap_handles_extreme_values() {
    assert_eq!(wrap_range(i64::MAX, i64::MIN, i64::MAX), i64::MIN);
    assert_eq!(wrap_range(i64::MIN, 0, 7), i64::MIN.rem_euclid(7));
}

#[test]
fn isqrt_rounds_down() {
    assert_eq!(isqrt(0), 0);
    assert_eq!(isqrt(1), 1);
    assert_eq!(isqrt(15), 3);
    assert_eq!(isqrt(16), 4);
    assert_eq!(isqrt(17), 4);
    assert_eq!(isqrt(u128::MAX), u64::MAX);
}

#[test]
fn half_diagonal_of_common_viewports() {
    assert_eq!(half_diagonal(800, 600), 500_000);
    assert_eq!(half_diagonal(1000, 1000), 707_106);
    assert_eq!(half_diagonal(1, 0), 500);
    assert_eq!(half_diagonal(0, 0), 0);
}

#[test]
fn half_diagonal_of_the_largest_viewport() {
    let d = half_diagonal(u32::MAX, u32::MAX) as u128;
    let n = 250_000u128 * 2 * (u32::MAX as u128) * (u32::MAX as u128);
    assert!(d * d <= n);
    assert!((d + 1) * (d + 1) > n);
}
