use caret_overlay::{get_best_position_logic, CursorPosition};

fn at(x: i32, y: i32) -> Option<CursorPosition> {
    Some(CursorPosition { x, y })
}

#[test]
fn pointer_only_gets_pointer_offset() {
    assert_eq!(get_best_position_logic(None, at(300, 400)), (316, 416));
    assert_eq!(get_best_position_logic(None, at(-50, 0)), (-34, 16));
}

#[test]
fn nothing_read_gives_default_point() {
    assert_eq!(get_best_position_logic(None, None), (100, 100));
}

#[test]
fn caret_only_gets_caret_offset() {
    assert_eq!(get_best_position_logic(at(500, 500), None), (465, 465));
    assert_eq!(get_best_position_logic(at(40, 1000), None), (5, 965));
}

#[test]
fn caret_near_pointer_wins() {
    assert_eq!(get_best_position_logic(at(500, 500), at(510, 505)), (465, 465));
}

#[test]
fn distance_of_exactly_threshold_keeps_caret() {
    // 400 + 400 == 800: not stale
    assert_eq!(get_best_position_logic(at(500, 500), at(900, 100)), (465, 465));
}

#[test]
fn distance_just_over_threshold_takes_pointer() {
    // 400 + 401 == 801: stale
    assert_eq!(get_best_position_logic(at(500, 500), at(900, 99)), (916, 115));
}

#[test]
fn far_pointer_overrides_caret() {
    assert_eq!(get_best_position_logic(at(500, 500), at(2000, 2000)), (2016, 2016));
}

#[test]
fn stale_check_applies_to_implausible_caret_too() {
    assert_eq!(get_best_position_logic(at(1, 1), at(2000, 2000)), (2016, 2016));
}

#[test]
fn caret_at_one_one_is_ignored() {
    assert_eq!(get_best_position_logic(at(1, 1), None), (100, 100));
    assert_eq!(get_best_position_logic(at(1, 1), at(10, 10)), (26, 26));
    assert_eq!(get_best_position_logic(at(0, 0), at(10, 10)), (26, 26));
}

#[test]
fn caret_at_two_two_is_used() {
    assert_eq!(get_best_position_logic(at(2, 2), None), (-33, -33));
    assert_eq!(get_best_position_logic(at(2, 2), at(10, 10)), (-33, -33));
}

#[test]
fn one_low_coordinate_makes_caret_implausible() {
    assert_eq!(get_best_position_logic(at(2, 1), at(10, 10)), (26, 26));
    assert_eq!(get_best_position_logic(at(500, 1), None), (100, 100));
}

#[test]
fn extreme_coordinates_do_not_overflow() {
    let r = get_best_position_logic(at(i32::MAX, i32::MAX), at(i32::MIN, i32::MIN));
    assert_eq!(r, (i32::MIN as i64 + 16, i32::MIN as i64 + 16));
    let s = get_best_position_logic(at(i32::MAX, i32::MAX), None);
    assert_eq!(s, (i32::MAX as i64 - 35, i32::MAX as i64 - 35));
}

#[test]
fn deciding_twice_gives_same_target() {
    for (caret, mouse) in [
        (at(500, 500), at(510, 505)),
        (at(500, 500), at(2000, 2000)),
        (None, at(7, 8)),
        (at(1, 1), None),
        (None, None),
    ] {
        assert_eq!(get_best_position_logic(caret, mouse), get_best_position_logic(caret, mouse));
    }
}
