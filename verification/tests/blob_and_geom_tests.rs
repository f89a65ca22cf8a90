use render_harness::color::{deserialize_blob, serialize_blob, ColorU};
use render_harness::geom::{bottom_anchored_rect, scene_region, Point, Rect, Size};

#[test]
fn serialize_blob_is_the_four_channel_bytes() {
    let data = serialize_blob(ColorU::new(50, 50, 150, 255));
    assert_eq!(data, vec![50, 50, 150, 255]);
}

#[test]
fn blob_round_trip_returns_the_color() {
    let color = ColorU::new(1, 2, 3, 4);
    let data = serialize_blob(color);
    assert_eq!(deserialize_blob(&data), Some(color));
}

#[test]
fn deserialize_blob_rejects_short_payload() {
    assert_eq!(deserialize_blob(&vec![50, 50, 150]), None);
}

#[test]
fn deserialize_blob_rejects_long_payload() {
    assert_eq!(deserialize_blob(&vec![50, 50, 150, 255, 0]), None);
}

#[test]
fn deserialize_blob_rejects_empty_payload() {
    assert_eq!(deserialize_blob(&Vec::new()), None);
}

#[test]
fn bottom_anchored_rect_sits_at_the_window_bottom() {
    let r = bottom_anchored_rect(Size::new(800, 600), Size::new(400, 400));
    assert_eq!(r.origin, Point::new(0, 200));
    assert_eq!(r.size, Size::new(400, 400));
}

#[test]
fn bottom_anchored_rect_fills_an_equal_window() {
    let r = bottom_anchored_rect(Size::new(400, 400), Size::new(400, 400));
    assert_eq!(r.origin, Point::new(0, 0));
    assert_eq!(r.size, Size::new(400, 400));
}

#[test]
fn scene_region_flips_the_vertical_anchor() {
    // The bottom two framebuffer rows of a 10-row window are scene rows 8-9.
    let r = scene_region(Size::new(10, 10), Rect::new(Point::new(0, 0), Size::new(2, 2)));
    assert_eq!(r, Rect::new(Point::new(0, 8), Size::new(2, 2)));
}

#[test]
fn bottom_anchored_readback_covers_the_scene_top() {
    // Whatever the window's height, the bottom-anchored read-back rectangle
    // covers the scene's top rows.
    let window = Size::new(400, 600);
    let fb = bottom_anchored_rect(window, Size::new(400, 400));
    assert_eq!(fb.origin, Point::new(0, 200));
    let r = scene_region(window, fb);
    assert_eq!(r, Rect::new(Point::new(0, 0), Size::new(400, 400)));
}

#[test]
fn rect_contains_is_half_open() {
    let r = Rect::new(Point::new(10, 20), Size::new(5, 5));
    assert!(r.contains(10, 20));
    assert!(r.contains(14, 24));
    assert!(!r.contains(15, 24));
    assert!(!r.contains(14, 25));
    assert!(!r.contains(9, 20));
}

#[test]
fn empty_rect_contains_nothing() {
    let r = Rect::new(Point::new(10, 20), Size::new(0, 0));
    assert!(!r.contains(10, 20));
}
