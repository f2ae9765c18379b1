use crankit_image::flip::lcd_bitmap_flip;
use crankit_image::Flip;

#[test]
fn new_maps_all_four_flag_pairs() {
    assert_eq!(Flip::new(false, false), Flip::Unflipped);
    assert_eq!(Flip::new(true, false), Flip::FlippedX);
    assert_eq!(Flip::new(false, true), Flip::FlippedY);
    assert_eq!(Flip::new(true, true), Flip::FlippedXY);
}

#[test]
fn projections_recover_the_flags() {
    for &(x, y) in &[(false, false), (true, false), (false, true), (true, true)] {
        let f = Flip::new(x, y);
        assert_eq!(f.flip_x(), x);
        assert_eq!(f.flip_y(), y);
    }
}

#[test]
fn new_recovers_the_state_from_its_projections() {
    for f in [Flip::Unflipped, Flip::FlippedX, Flip::FlippedY, Flip::FlippedXY] {
        assert_eq!(Flip::new(f.flip_x(), f.flip_y()), f);
    }
}

#[test]
fn lcd_bitmap_flip_matches_new() {
    assert_eq!(lcd_bitmap_flip((false, false)), Flip::Unflipped);
    assert_eq!(lcd_bitmap_flip((true, false)), Flip::FlippedX);
    assert_eq!(lcd_bitmap_flip((false, true)), Flip::FlippedY);
    assert_eq!(lcd_bitmap_flip((true, true)), Flip::FlippedXY);
}
