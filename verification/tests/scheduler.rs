use recoil_engine::scheduler::{distribute, plan_movement};
use recoil_engine::types::Command;

#[test]
fn distribute_spreads_forty_six_and_a_half_over_ten_steps() {
    let steps = distribute(46_500_000, 1000, 10);
    assert_eq!(steps, vec![5, 4, 5, 5, 4, 5, 5, 4, 5, 5]);
    let sum: i32 = steps.iter().sum();
    assert!(sum == 46 || sum == 47);
    assert!(steps.iter().all(|step| *step <= 6));
}

#[test]
fn distribute_returns_one_step_per_split() {
    assert_eq!(distribute(1_000_000, 1000, 0).len(), 0);
    assert_eq!(distribute(1_000_000, 1000, 1), vec![1]);
    assert_eq!(distribute(1_000_000, 1000, 7).len(), 7);
}

#[test]
fn distribute_carries_the_remainder_forward() {
    // One unit over four steps: 0.25, 0.5 (rounds up), -0.25, 0.
    assert_eq!(distribute(1_000_000, 1000, 4), vec![0, 1, 0, 0]);
    // Three units over two steps: 1.5 rounds away from zero, then 1.
    assert_eq!(distribute(3_000_000, 1000, 2), vec![2, 1]);
}

#[test]
fn distribute_mirrors_negative_displacements() {
    assert_eq!(distribute(-3_000_000, 1000, 2), vec![-2, -1]);
    assert_eq!(distribute(3_000_000, -1000, 2), vec![-2, -1]);
    assert_eq!(distribute(-46_500_000, 1000, 10), vec![-5, -4, -5, -5, -4, -5, -5, -4, -5, -5]);
}

#[test]
fn distribute_applies_the_multiplier() {
    // 10 units times 1.5 over three steps.
    assert_eq!(distribute(10_000_000, 1500, 3), vec![5, 5, 5]);
    // 10 units times 0.5 over two steps: 2.5 rounds to 3, then 2.
    assert_eq!(distribute(10_000_000, 500, 2), vec![3, 2]);
    assert_eq!(distribute(10_000_000, 0, 2), vec![0, 0]);
}

#[test]
fn distribute_error_stays_below_one_unit_for_many_split_counts() {
    for splits in 1u32..200 {
        for total in [46_500_000i64, -5_000_000, 129_500_000, 333_333, 1, -1, 0] {
            let steps = distribute(total, 1000, splits);
            let sum: i64 = steps.iter().map(|step| *step as i64).sum();
            let error = (sum * 1_000_000_000 - total * 1000).abs();
            assert!(2 * error <= 1_000_000_000, "splits {splits} total {total}");
        }
    }
}

#[test]
fn distribute_holds_steps_to_the_range_of_i32() {
    let steps = distribute(i64::MAX, i32::MAX, 1);
    assert_eq!(steps, vec![i32::MAX]);
    let steps = distribute(i64::MAX, i32::MIN, 1);
    assert_eq!(steps, vec![i32::MIN]);
    let steps = distribute(i64::MIN, i32::MIN, 3);
    assert_eq!(steps, vec![i32::MAX, i32::MAX, i32::MAX]);
}

#[test]
fn plan_movement_waits_first_when_asked() {
    let plan = plan_movement(0, 3_000_000, 1000, 1000, 2, 10_000_000, true);
    assert_eq!(
        plan,
        vec![
            Command::Wait { nanos: 5_000_000 },
            Command::Move { dx: 0, dy: 2 },
            Command::Wait { nanos: 5_000_000 },
            Command::Move { dx: 0, dy: 1 },
        ]
    );
}

#[test]
fn plan_movement_moves_first_otherwise() {
    let plan = plan_movement(-2_000_000, 2_000_000, 1000, 2000, 2, 7, false);
    assert_eq!(
        plan,
        vec![
            Command::Move { dx: -1, dy: 2 },
            Command::Wait { nanos: 3 },
            Command::Move { dx: -1, dy: 2 },
            Command::Wait { nanos: 3 },
        ]
    );
}

#[test]
fn plan_movement_without_splits_is_empty() {
    assert_eq!(plan_movement(5_000_000, 5_000_000, 1000, 1000, 0, 1_000, true), vec![]);
}
