use crankit_image::{
    draw_from_origin, draw_from_origin_with_flip, DrawImage, DrawMode, Flip, HasSize, LoadImage,
    MemoryGraphics, Ratio,
};

fn backend_with_hero() -> MemoryGraphics {
    let mut gfx = MemoryGraphics::new(1);
    gfx.add_resource("hero", 2, 3);
    gfx
}

#[test]
fn loading_a_missing_path_yields_not_found() {
    let mut gfx = backend_with_hero();
    let err = gfx.load_from_path("villain").unwrap_err();
    assert_eq!(err.0, "villain");
    assert_eq!(gfx.live_count(), 0);
}

#[test]
fn loading_a_path_with_an_embedded_terminator_yields_not_found() {
    let mut gfx = MemoryGraphics::new(1);
    gfx.add_resource("he\0ro", 2, 3);
    let err = gfx.load_from_path("he\0ro").unwrap_err();
    assert_eq!(err.0, "he\0ro");
}

#[test]
fn loading_a_known_path_yields_a_live_handle() {
    let mut gfx = backend_with_hero();
    let image = gfx.load_from_path("hero").unwrap();
    assert_eq!(gfx.live_count(), 1);
    assert!(gfx.owns(&image));
    assert_eq!(image.size(), (2, 3));
}

#[test]
fn loading_picks_the_first_matching_resource() {
    let mut gfx = backend_with_hero();
    gfx.add_resource("hero", 9, 9);
    let image = gfx.load_from_path("hero").unwrap();
    assert_eq!(image.size(), (2, 3));
}

#[test]
fn size_is_stable_across_repeated_queries() {
    let mut gfx = backend_with_hero();
    let image = gfx.load_from_path("hero").unwrap();
    let first = image.size();
    let second = image.size();
    assert_eq!(first, second);
    assert_eq!(first, (2, 3));
}

#[test]
fn handles_get_distinct_identifiers() {
    let mut gfx = backend_with_hero();
    let a = gfx.load_from_path("hero").unwrap();
    let b = gfx.load_from_path("hero").unwrap();
    assert_ne!(a.id(), b.id());
    assert_eq!(gfx.live_count(), 2);
}

#[test]
fn drawing_records_the_call_and_keeps_the_handle_live() {
    let mut gfx = backend_with_hero();
    let image = gfx.load_from_path("hero").unwrap();
    gfx.draw_with_flip(&image, (4, 5), Flip::FlippedX);
    gfx.draw(&image, (-1, 0));
    assert_eq!(gfx.frame_len(), 2);
    assert_eq!(gfx.frame_call(0), Some((image.id(), (4, 5), Flip::FlippedX)));
    assert_eq!(gfx.frame_call(1), Some((image.id(), (-1, 0), Flip::Unflipped)));
    assert_eq!(gfx.frame_call(2), None);
    assert!(gfx.owns(&image));
}

#[test]
fn origin_relative_draw_uses_the_geometry() {
    let mut gfx = backend_with_hero();
    let image = gfx.load_from_path("hero").unwrap();
    draw_from_origin(&mut gfx, &image, (10, 10), (Ratio::from_int(1), Ratio::from_int(1)));
    assert_eq!(gfx.frame_call(0), Some((image.id(), (8, 7), Flip::Unflipped)));
}

#[test]
fn origin_relative_draw_mirrors_the_anchor_with_the_flip() {
    let mut gfx = backend_with_hero();
    let image = gfx.load_from_path("hero").unwrap();
    let origin = (Ratio::from_int(1), Ratio::from_int(1));
    draw_from_origin_with_flip(&mut gfx, &image, (0, 0), origin, Flip::FlippedXY);
    assert_eq!(gfx.frame_call(0), Some((image.id(), (0, 0), Flip::FlippedXY)));
}

#[test]
fn releasing_a_handle_exactly_once_frees_it() {
    let mut gfx = backend_with_hero();
    let image = gfx.load_from_path("hero").unwrap();
    assert_eq!(gfx.live_count(), 1);
    gfx.release(image);
    assert_eq!(gfx.live_count(), 0);
}

#[test]
fn releasing_one_handle_keeps_the_others_live() {
    let mut gfx = backend_with_hero();
    let a = gfx.load_from_path("hero").unwrap();
    let b = gfx.load_from_path("hero").unwrap();
    gfx.release(a);
    assert_eq!(gfx.live_count(), 1);
    assert!(gfx.owns(&b));
}

#[test]
fn a_handle_belongs_only_to_its_own_connection() {
    let mut gfx = backend_with_hero();
    let mut other = MemoryGraphics::new(2);
    other.add_resource("hero", 2, 3);
    let image = gfx.load_from_path("hero").unwrap();
    assert!(gfx.owns(&image));
    assert!(!other.owns(&image));
}

#[test]
fn draw_mode_defaults_to_copy() {
    assert_eq!(DrawMode::default(), DrawMode::Copy);
    assert_ne!(DrawMode::XOR, DrawMode::NXOR);
}
