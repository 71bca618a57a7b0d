use recoil_engine::navigation::{calculate_new_index, VK_DOWN, VK_LEFT, VK_RIGHT, VK_UP};

#[test]
fn right_from_the_last_of_seven_wraps_to_the_first() {
    assert_eq!(calculate_new_index(6, 7, 3, VK_RIGHT), Some(0));
}

#[test]
fn down_from_the_last_row_wraps_to_the_same_column_of_the_first() {
    assert_eq!(calculate_new_index(6, 7, 3, VK_DOWN), Some(0));
    assert_eq!(calculate_new_index(4, 6, 3, VK_DOWN), Some(1));
}

#[test]
fn left_steps_back_and_wraps_to_the_last() {
    assert_eq!(calculate_new_index(4, 7, 3, VK_LEFT), Some(3));
    assert_eq!(calculate_new_index(3, 7, 3, VK_LEFT), Some(2));
    assert_eq!(calculate_new_index(0, 7, 3, VK_LEFT), Some(6));
}

#[test]
fn right_steps_on() {
    assert_eq!(calculate_new_index(0, 7, 3, VK_RIGHT), Some(1));
    assert_eq!(calculate_new_index(2, 7, 3, VK_RIGHT), Some(3));
}

#[test]
fn up_keeps_the_column() {
    assert_eq!(calculate_new_index(4, 7, 3, VK_UP), Some(1));
    assert_eq!(calculate_new_index(6, 7, 3, VK_UP), Some(3));
}

#[test]
fn up_from_the_first_row_wraps_to_the_last_row() {
    assert_eq!(calculate_new_index(0, 7, 3, VK_UP), Some(6));
    // The last row has no second column: fall back to the last item.
    assert_eq!(calculate_new_index(1, 7, 3, VK_UP), Some(6));
    assert_eq!(calculate_new_index(2, 9, 3, VK_UP), Some(8));
}

#[test]
fn down_keeps_the_column_or_falls_back_to_the_last_item() {
    assert_eq!(calculate_new_index(0, 7, 3, VK_DOWN), Some(3));
    assert_eq!(calculate_new_index(3, 7, 3, VK_DOWN), Some(6));
    assert_eq!(calculate_new_index(4, 7, 3, VK_DOWN), Some(6));
    assert_eq!(calculate_new_index(5, 7, 3, VK_DOWN), Some(6));
}

#[test]
fn nothing_moves_without_items_or_columns() {
    for key in [VK_LEFT, VK_RIGHT, VK_UP, VK_DOWN] {
        assert_eq!(calculate_new_index(0, 0, 3, key), None);
        assert_eq!(calculate_new_index(0, 7, 0, key), None);
        assert_eq!(calculate_new_index(0, 0, 0, key), None);
    }
}

#[test]
fn other_keys_move_nothing() {
    assert_eq!(calculate_new_index(2, 7, 3, 0x2D), None);
    assert_eq!(calculate_new_index(2, 7, 3, 0), None);
    assert_eq!(calculate_new_index(2, 7, 3, -1), None);
}

#[test]
fn a_single_item_stays_selected() {
    for key in [VK_LEFT, VK_RIGHT, VK_UP, VK_DOWN] {
        assert_eq!(calculate_new_index(0, 1, 3, key), Some(0));
    }
}

#[test]
fn moves_inside_the_grid_stay_inside_it() {
    for total in 1usize..20 {
        for per_row in 1usize..8 {
            for current in 0..total {
                for key in [VK_LEFT, VK_RIGHT, VK_UP, VK_DOWN] {
                    let target = calculate_new_index(current, total, per_row, key).unwrap();
                    assert!(target < total);
                }
                let right = calculate_new_index(current, total, per_row, VK_RIGHT).unwrap();
                assert_eq!(calculate_new_index(right, total, per_row, VK_LEFT), Some(current));
            }
        }
    }
}

#[test]
fn huge_grids_do_not_overflow() {
    assert_eq!(calculate_new_index(usize::MAX, usize::MAX, 1, VK_RIGHT), Some(0));
    assert_eq!(calculate_new_index(usize::MAX - 1, usize::MAX, usize::MAX, VK_DOWN), Some(usize::MAX - 1));
    assert_eq!(calculate_new_index(0, usize::MAX, 2, VK_UP), Some(usize::MAX - 1));
}
