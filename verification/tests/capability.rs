use agility_camp::capability::{
    back_and_forth_movement, up_and_down_movement, BACK_STEP, FORTH_STEP, UP_DOWN_STEP,
};
use agility_camp::UNITS_PER_PIXEL;

#[test]
fn capability_steps_are_the_pixel_values_on_the_grid() {
    assert_eq!(UP_DOWN_STEP, 2 * UNITS_PER_PIXEL);
    assert_eq!(FORTH_STEP, 3 * UNITS_PER_PIXEL);
    assert_eq!(BACK_STEP * 2, 3 * UNITS_PER_PIXEL);
}

#[test]
fn up_key_moves_up_and_down_key_moves_down() {
    let mut heights = vec![0, 10_000, -10_000];
    up_and_down_movement(true, false, &mut heights);
    assert_eq!(heights, vec![2_000, 12_000, -8_000]);
    up_and_down_movement(false, true, &mut heights);
    up_and_down_movement(false, true, &mut heights);
    assert_eq!(heights, vec![-2_000, 8_000, -12_000]);
}

#[test]
fn both_keys_or_none_leave_the_height() {
    let mut heights = vec![0, 10_000, -10_000];
    up_and_down_movement(true, true, &mut heights);
    assert_eq!(heights, vec![0, 10_000, -10_000]);
    up_and_down_movement(false, false, &mut heights);
    assert_eq!(heights, vec![0, 10_000, -10_000]);
}

#[test]
fn up_and_down_ends_at_the_edge_of_the_grid() {
    let mut heights = vec![i32::MAX - 1_999, i32::MAX, i32::MIN + 1_999, i32::MIN];
    up_and_down_movement(true, false, &mut heights);
    assert_eq!(heights, vec![i32::MAX, i32::MAX, i32::MIN + 3_999, i32::MIN + 2_000]);
    let mut heights = vec![i32::MAX - 1_999, i32::MAX, i32::MIN + 1_999, i32::MIN];
    up_and_down_movement(false, true, &mut heights);
    assert_eq!(heights, vec![i32::MAX - 3_999, i32::MAX - 2_000, i32::MIN, i32::MIN]);
    // Up to the edge first, then down from there.
    let mut heights = vec![i32::MAX - 500, i32::MIN];
    up_and_down_movement(true, true, &mut heights);
    assert_eq!(heights, vec![i32::MAX - 2_000, i32::MIN]);
}

#[test]
fn right_key_moves_forth_and_no_key_drifts_back() {
    let mut places = vec![0, -400_000];
    back_and_forth_movement(true, &mut places);
    assert_eq!(places, vec![3_000, -397_000]);
    back_and_forth_movement(false, &mut places);
    assert_eq!(places, vec![1_500, -398_500]);
    back_and_forth_movement(false, &mut places);
    assert_eq!(places, vec![0, -400_000]);
}

#[test]
fn back_and_forth_ends_at_the_edge_of_the_grid() {
    let mut places = vec![i32::MAX - 2_999, i32::MAX - 3_000, i32::MIN + 1_499, i32::MIN + 1_500];
    back_and_forth_movement(true, &mut places);
    assert_eq!(places, vec![i32::MAX, i32::MAX, i32::MIN + 4_499, i32::MIN + 4_500]);
    let mut places = vec![i32::MAX, i32::MIN + 1_499, i32::MIN + 1_500, i32::MIN];
    back_and_forth_movement(false, &mut places);
    assert_eq!(places, vec![i32::MAX - 1_500, i32::MIN, i32::MIN, i32::MIN]);
}

#[test]
fn capabilities_of_nobody_do_nothing() {
    let mut nobody: Vec<i32> = Vec::new();
    up_and_down_movement(true, true, &mut nobody);
    back_and_forth_movement(true, &mut nobody);
    assert!(nobody.is_empty());
}
