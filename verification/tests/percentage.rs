use price_oracle::{calculate_percentage_change_bps, calculate_percentage_difference_bps};

#[test]
fn rise_is_positive() {
    assert_eq!(calculate_percentage_change_bps(1_000_000, 1_200_000), Some(2_000));
}

#[test]
fn fall_is_negative() {
    assert_eq!(calculate_percentage_change_bps(1_000_000, 800_000), Some(-2_000));
}

#[test]
fn unchanged_price_is_zero() {
    assert_eq!(calculate_percentage_change_bps(1_000_000, 1_000_000), Some(0));
    assert_eq!(calculate_percentage_change_bps(-7, -7), Some(0));
    assert_eq!(calculate_percentage_difference_bps(3, 3), Some(0));
}

#[test]
fn change_from_zero_is_undefined() {
    assert_eq!(calculate_percentage_change_bps(0, 1_000_000), None);
    assert_eq!(calculate_percentage_difference_bps(0, 0), None);
}

#[test]
fn fractions_are_rounded_towards_zero() {
    assert_eq!(calculate_percentage_change_bps(3, 4), Some(3_333));
    assert_eq!(calculate_percentage_change_bps(3, 2), Some(-3_333));
    assert_eq!(calculate_percentage_change_bps(-3, -2), Some(-3_333));
    assert_eq!(calculate_percentage_change_bps(-3, -4), Some(3_333));
    assert_eq!(calculate_percentage_change_bps(1_000_000, 1_000_001), Some(0));
}

#[test]
fn overflow_is_undefined() {
    assert_eq!(calculate_percentage_change_bps(-1, i128::MAX), None);
    assert_eq!(calculate_percentage_change_bps(i128::MAX, i128::MIN), None);
    assert_eq!(calculate_percentage_change_bps(1, i128::MAX), None);
    assert_eq!(calculate_percentage_difference_bps(1, i128::MAX), None);
}

#[test]
fn largest_moves_are_defined() {
    let step = i128::MAX / 10_000;
    assert_eq!(calculate_percentage_change_bps(1, 1 + step), Some(step * 10_000));
    assert_eq!(calculate_percentage_change_bps(1, 1 - step), Some(-step * 10_000));
    assert_eq!(calculate_percentage_change_bps(-1, -1 - step), Some(step * 10_000));
    assert_eq!(calculate_percentage_difference_bps(1, 1 - step), Some(step * 10_000));
}

#[test]
fn difference_ignores_direction() {
    assert_eq!(calculate_percentage_difference_bps(1_000_000, 1_200_000), Some(2_000));
    assert_eq!(calculate_percentage_difference_bps(1_000_000, 800_000), Some(2_000));
}

#[test]
fn difference_grows_with_the_move() {
    let mut last = 0;
    for step in 0..100 {
        let difference = calculate_percentage_difference_bps(700, 700 - step).unwrap();
        assert!(difference >= last);
        last = difference;
    }
    assert_eq!(last, 1_414);
}
