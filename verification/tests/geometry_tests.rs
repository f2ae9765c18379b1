use crankit_image::geometry::position_from_origin;
use crankit_image::Ratio;

fn whole(v: i32) -> Ratio {
    Ratio::from_int(v)
}

#[test]
fn origin_top_left_unflipped_is_identity() {
    let r = position_from_origin((0, 0), (whole(0), whole(0)), (2, 3), (false, false));
    assert_eq!(r, (0, 0));
}

#[test]
fn origin_right_edge_shifts_left_by_width() {
    let r = position_from_origin((0, 0), (whole(1), whole(0)), (2, 3), (false, false));
    assert_eq!(r, (-2, 0));
}

#[test]
fn origin_bottom_edge_shifts_up_by_height() {
    let r = position_from_origin((0, 0), (whole(0), whole(1)), (2, 3), (false, false));
    assert_eq!(r, (0, -3));
}

#[test]
fn origin_bottom_right_shifts_by_full_size() {
    let r = position_from_origin((0, 0), (whole(1), whole(1)), (2, 3), (false, false));
    assert_eq!(r, (-2, -3));
}

#[test]
fn origin_beyond_bounds_extrapolates() {
    let r = position_from_origin((0, 0), (whole(2), whole(2)), (2, 3), (false, false));
    assert_eq!(r, (-4, -6));
}

#[test]
fn flipped_x_mirrors_the_horizontal_anchor() {
    let r = position_from_origin((0, 0), (whole(0), whole(0)), (2, 3), (true, false));
    assert_eq!(r, (-2, 0));
}

#[test]
fn flipped_x_right_edge_anchor_becomes_left_edge() {
    let r = position_from_origin((0, 0), (whole(1), whole(0)), (2, 3), (true, false));
    assert_eq!(r, (0, 0));
}

#[test]
fn flipped_y_bottom_edge_anchor_becomes_top_edge() {
    let r = position_from_origin((0, 0), (whole(0), whole(1)), (2, 3), (false, true));
    assert_eq!(r, (0, 0));
}

#[test]
fn flipped_both_bottom_right_anchor_is_identity() {
    let r = position_from_origin((0, 0), (whole(1), whole(1)), (2, 3), (true, true));
    assert_eq!(r, (0, 0));
}

#[test]
fn flipped_x_extrapolated_anchor_shifts_right() {
    let r = position_from_origin((0, 0), (whole(2), whole(0)), (2, 3), (true, false));
    assert_eq!(r, (2, 0));
}

#[test]
fn flipped_y_extrapolated_anchor_shifts_down() {
    let r = position_from_origin((0, 0), (whole(0), whole(2)), (2, 3), (false, true));
    assert_eq!(r, (0, 3));
}

#[test]
fn fractional_origin_truncates_toward_zero() {
    let half = Ratio::new(1, 2);
    let r = position_from_origin((0, 0), (half, half), (3, 3), (false, false));
    assert_eq!(r, (-1, -1));
}

#[test]
fn fractional_origin_truncates_toward_zero_when_flipped() {
    let third = Ratio::new(1, 3);
    let r = position_from_origin((10, 10), (third, third), (4, 4), (true, true));
    assert_eq!(r, (8, 8));
}

#[test]
fn nonzero_position_is_translated() {
    let r = position_from_origin((7, -9), (whole(1), whole(1)), (2, 3), (false, false));
    assert_eq!(r, (5, -12));
}
