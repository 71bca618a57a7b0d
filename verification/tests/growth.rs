use recoil_engine::growth::{grow, grow_once};
use recoil_engine::scheduler::divide_to_nearest;

#[test]
fn no_round_leaves_the_base_as_it_is() {
    assert_eq!(grow(129_500_000, 1007, 0), 129_500_000);
    assert_eq!(grow(-7, 1_500, 0), -7);
}

#[test]
fn growth_follows_the_power_of_the_factor() {
    // 129.5 * 1.007 = 130.4065; * 1.007 = 131.3193455, half a millionth up.
    assert_eq!(grow(129_500_000, 1007, 1), 130_406_500);
    assert_eq!(grow(129_500_000, 1007, 2), 131_319_346);
    assert_eq!(grow(129_500_000, 1007, 3), 132_238_581);
    assert_eq!(grow(129_500_000, 1007, 4), 133_164_251);
    assert_eq!(grow(129_500_000, 1007, 5), 134_096_401);
}

#[test]
fn growth_stays_near_the_exact_power_over_a_long_burst() {
    // 129.5 * 1.007^100 = 260.145803..; a hundred roundings cost less than ten millionths.
    let grown = grow(129_500_000, 1007, 100);
    assert_eq!(grown, 260_145_811);
    let exact = 129.5f64 * 1.007f64.powi(100) * 1_000_000.0;
    assert!((grown as f64 - exact).abs() <= 50.0 * 1.007f64.powi(100));
}

#[test]
fn growth_increases_with_every_round() {
    let mut before = grow(129_500_000, 1007, 0);
    for round in 1u64..200 {
        let after = grow(129_500_000, 1007, round);
        assert!(after > before);
        before = after;
    }
}

#[test]
fn growth_takes_one_round_at_a_time() {
    let mut value: i64 = 46_500_000;
    for round in 0u64..50 {
        assert_eq!(grow(46_500_000, 1012, round), value);
        value = grow_once(value, 1012);
    }
}

#[test]
fn a_factor_of_one_changes_nothing() {
    assert_eq!(grow(129_500_000, 1000, u64::MAX), 129_500_000);
    assert_eq!(grow(-129_500_000, 1000, 17), -129_500_000);
}

#[test]
fn nothing_grows_to_nothing() {
    assert_eq!(grow(0, 1007, u64::MAX), 0);
    assert_eq!(grow(129_500_000, 0, 1), 0);
    assert_eq!(grow(129_500_000, 0, u64::MAX), 0);
}

#[test]
fn a_factor_below_one_shrinks_the_displacement() {
    // 100 * 0.5 = 50, 25, 12.5.
    assert_eq!(grow(100_000_000, 500, 3), 12_500_000);
    // One millionth halves to a half, which rounds away from zero and stays.
    assert_eq!(grow(1, 500, 1), 1);
    assert_eq!(grow(1, 500, u64::MAX), 1);
    assert_eq!(grow(-1, 500, u64::MAX), -1);
}

#[test]
fn a_negative_factor_turns_the_displacement_round() {
    assert_eq!(grow(10_000_000, -2000, 1), -20_000_000);
    assert_eq!(grow(10_000_000, -2000, 2), 40_000_000);
    assert_eq!(grow(-3, -1500, 1), 5);
}

#[test]
fn growth_stops_at_the_largest_displacement() {
    assert_eq!(grow_once(i64::MAX, 2000), i64::MAX);
    assert_eq!(grow_once(i64::MIN, 2000), i64::MIN);
    assert_eq!(grow_once(i64::MAX, -2000), i64::MIN);
    assert_eq!(grow(129_500_000, 2000, 64), i64::MAX);
    assert_eq!(grow(129_500_000, 2000, u64::MAX), i64::MAX);
    assert_eq!(grow(-129_500_000, 2000, u64::MAX), i64::MIN);
}

#[test]
fn division_rounds_halves_away_from_zero() {
    assert_eq!(divide_to_nearest(0, 7), 0);
    assert_eq!(divide_to_nearest(7, 2), 4);
    assert_eq!(divide_to_nearest(-7, 2), -4);
    assert_eq!(divide_to_nearest(1_499, 1_000), 1);
    assert_eq!(divide_to_nearest(1_500, 1_000), 2);
    assert_eq!(divide_to_nearest(-1_499, 1_000), -1);
    assert_eq!(divide_to_nearest(-1_500, 1_000), -2);
    assert_eq!(divide_to_nearest(i128::MAX, 1), i128::MAX);
    assert_eq!(divide_to_nearest(i128::MAX, i128::MAX), 1);
    assert_eq!(divide_to_nearest(-i128::MAX, i128::MAX), -1);
}
