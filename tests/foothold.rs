use studyms::{FootHold, FootHoldType, Point, GROUP_1, GROUP_2, GROUP_3, GROUP_4, GROUP_5, GROUP_ALL};

fn pt(x: i64, y: i64) -> Point {
    Point { x, y }
}

#[test]
fn horizontal_left_to_right_blocks_downward_only() {
    let a = pt(-40, 12);
    let b = pt(90, 12);
    assert_eq!(FootHold::get_foothold_type(a, b), FootHoldType::Horizontal);
    assert_eq!(FootHold::get_foothold_group(a, b), GROUP_1);
}

#[test]
fn horizontal_reversed_blocks_upward_only() {
    let a = pt(-40, 12);
    let b = pt(90, 12);
    assert_eq!(FootHold::get_foothold_type(b, a), FootHoldType::Horizontal);
    assert_eq!(FootHold::get_foothold_group(b, a), GROUP_2);
}

#[test]
fn vertical_upward_blocks_rightward_only() {
    let a = pt(7, -100);
    let b = pt(7, 25);
    assert_eq!(FootHold::get_foothold_type(a, b), FootHoldType::Vertical);
    assert_eq!(FootHold::get_foothold_group(a, b), GROUP_3);
}

#[test]
fn vertical_reversed_blocks_leftward_only() {
    let a = pt(7, -100);
    let b = pt(7, 25);
    assert_eq!(FootHold::get_foothold_type(b, a), FootHoldType::Vertical);
    assert_eq!(FootHold::get_foothold_group(b, a), GROUP_4);
}

#[test]
fn slope_blocks_downward_in_both_orders() {
    let a = pt(0, 0);
    let b = pt(30, -12);
    assert_eq!(FootHold::get_foothold_type(a, b), FootHoldType::Slope);
    assert_eq!(FootHold::get_foothold_type(b, a), FootHoldType::Slope);
    assert_eq!(FootHold::get_foothold_group(a, b), GROUP_1);
    assert_eq!(FootHold::get_foothold_group(b, a), GROUP_1);
}

#[test]
fn zero_length_segment_is_horizontal_blocking_upward() {
    let a = pt(5, 5);
    assert_eq!(FootHold::get_foothold_type(a, a), FootHoldType::Horizontal);
    assert_eq!(FootHold::get_foothold_group(a, a), GROUP_2);
}

#[test]
fn classification_repeats_on_same_input() {
    let a = pt(3, 9);
    let b = pt(-8, 14);
    assert_eq!(FootHold::get_foothold_type(a, b), FootHold::get_foothold_type(a, b));
    assert_eq!(FootHold::get_foothold_group(a, b), FootHold::get_foothold_group(a, b));
    let c = pt(3, 9);
    let d = pt(20, 9);
    assert_eq!(FootHold::get_foothold_group(c, d), FootHold::get_foothold_group(c, d));
}

#[test]
fn layer_groups_are_distinct_bits() {
    assert_eq!(FootHold::get_foothold_layer(0), GROUP_1);
    assert_eq!(FootHold::get_foothold_layer(1), GROUP_2);
    assert_eq!(FootHold::get_foothold_layer(2), GROUP_3);
    assert_eq!(FootHold::get_foothold_layer(3), GROUP_4);
    assert_eq!(FootHold::get_foothold_layer(4), GROUP_5);
    assert_eq!(GROUP_1 | GROUP_2 | GROUP_3 | GROUP_4 | GROUP_5, 31);
}

#[test]
fn out_of_range_layers_match_everything() {
    assert_eq!(FootHold::get_foothold_layer(5), GROUP_ALL);
    assert_eq!(FootHold::get_foothold_layer(-1), GROUP_ALL);
    assert_eq!(FootHold::get_foothold_layer(i32::MAX), GROUP_ALL);
    assert_eq!(FootHold::get_foothold_layer(i32::MIN), GROUP_ALL);
}

#[test]
fn map_endpoints_flip_to_world_space() {
    let f = FootHold { x1: -10, y1: 40, x2: 25, y2: -3, prev: 0, next: 2, piece: 1, layer: 3, id: 1 };
    assert_eq!(f.start(), pt(-10, -40));
    assert_eq!(f.end(), pt(25, 3));
    let low = FootHold { x1: 0, y1: i32::MIN, x2: 0, y2: 0, prev: 0, next: 0, piece: 0, layer: 0, id: 0 };
    assert_eq!(low.start(), pt(0, 2147483648));
}

#[test]
fn map_wall_drawn_downwards_blocks_rightward() {
    // Map y grows downwards: a wall drawn from map y 100 to map y 0 runs
    // upwards in world space.
    let f = FootHold { x1: 50, y1: 100, x2: 50, y2: 0, prev: 0, next: 0, piece: 0, layer: 0, id: 4 };
    assert_eq!(FootHold::get_foothold_group(f.start(), f.end()), GROUP_3);
}

#[test]
fn bottom_layer_is_zero() {
    assert_eq!(FootHold::get_bottom_layer(pt(100, -3000)), 0);
}
