use render_harness::color::ColorU;
use render_harness::geom::{Point, Rect, Size};
use render_harness::raster::{pixel_at, rasterize};
use render_harness::scene::{ImageDescriptor, ImageFormat, ImageItem, ImageKey, ImageRendering};
use render_harness::store::{lookup, ImageEntry};

fn entry(key: u32, color: ColorU) -> ImageEntry {
    ImageEntry {
        key: ImageKey(key),
        descriptor: ImageDescriptor::new(500, 500, ImageFormat::BGRA8, true),
        color,
    }
}

fn image_at(x: u32, y: u32, width: u32, height: u32, key: u32) -> ImageItem {
    ImageItem {
        rect: Rect::new(Point::new(x, y), Size::new(width, height)),
        stretch_size: Size::new(width, height),
        tile_spacing: Size::new(0, 0),
        rendering: ImageRendering::Auto,
        key: ImageKey(key),
    }
}

fn white() -> ColorU {
    ColorU { r: 255, g: 255, b: 255, a: 255 }
}

fn blue() -> ColorU {
    ColorU { r: 50, g: 50, b: 150, a: 255 }
}

fn red() -> ColorU {
    ColorU { r: 200, g: 10, b: 10, a: 255 }
}

#[test]
fn lookup_finds_the_newest_entry_for_a_key() {
    let store = vec![entry(1, blue()), entry(2, red()), entry(1, white())];
    assert_eq!(lookup(&store, ImageKey(1)), Some(white()));
    assert_eq!(lookup(&store, ImageKey(2)), Some(red()));
}

#[test]
fn lookup_misses_an_absent_key() {
    let store = vec![entry(1, blue())];
    assert_eq!(lookup(&store, ImageKey(9)), None);
}

#[test]
fn pixel_inside_an_item_shows_its_color() {
    let items = vec![image_at(2, 3, 4, 4, 1)];
    let store = vec![entry(1, blue())];
    assert_eq!(pixel_at(&items, &store, white(), 2, 3), blue());
    assert_eq!(pixel_at(&items, &store, white(), 5, 6), blue());
}

#[test]
fn pixel_outside_every_item_shows_the_background() {
    let items = vec![image_at(2, 3, 4, 4, 1)];
    let store = vec![entry(1, blue())];
    assert_eq!(pixel_at(&items, &store, white(), 1, 3), white());
    assert_eq!(pixel_at(&items, &store, white(), 6, 3), white());
}

#[test]
fn item_with_an_unregistered_key_draws_nothing() {
    let items = vec![image_at(2, 3, 4, 4, 7)];
    let store = vec![entry(1, blue())];
    assert_eq!(pixel_at(&items, &store, white(), 3, 4), white());
}

#[test]
fn later_items_draw_on_top_of_earlier_ones() {
    let items = vec![image_at(0, 0, 4, 4, 1), image_at(0, 0, 2, 2, 2)];
    let store = vec![entry(1, blue()), entry(2, red())];
    assert_eq!(pixel_at(&items, &store, white(), 1, 1), red());
    assert_eq!(pixel_at(&items, &store, white(), 3, 3), blue());
}

#[test]
fn capture_length_is_four_bytes_per_pixel() {
    let items = Vec::new();
    let store = Vec::new();
    let pixels = rasterize(&items, &store, white(), Rect::new(Point::new(0, 0), Size::new(3, 2)));
    assert_eq!(pixels.len(), 3 * 2 * 4);
}

#[test]
fn capture_of_an_empty_scene_is_all_background() {
    let items = Vec::new();
    let store = Vec::new();
    let pixels = rasterize(&items, &store, blue(), Rect::new(Point::new(0, 0), Size::new(2, 2)));
    assert_eq!(pixels, vec![50, 50, 150, 255, 50, 50, 150, 255, 50, 50, 150, 255, 50, 50, 150, 255]);
}

#[test]
fn capture_is_row_major_top_to_bottom() {
    // One blue pixel at (1, 0) of a 2x2 capture: second pixel of the first row.
    let items = vec![image_at(1, 0, 1, 1, 1)];
    let store = vec![entry(1, blue())];
    let pixels = rasterize(&items, &store, white(), Rect::new(Point::new(0, 0), Size::new(2, 2)));
    assert_eq!(
        pixels,
        vec![255, 255, 255, 255, 50, 50, 150, 255, 255, 255, 255, 255, 255, 255, 255, 255],
    );
}

#[test]
fn capture_window_offsets_device_coordinates() {
    // Capturing a rect whose origin is (5, 5): the item at device (5, 5)
    // lands at the capture's first pixel.
    let items = vec![image_at(5, 5, 1, 1, 1)];
    let store = vec![entry(1, red())];
    let pixels = rasterize(&items, &store, white(), Rect::new(Point::new(5, 5), Size::new(1, 2)));
    assert_eq!(pixels, vec![200, 10, 10, 255, 255, 255, 255, 255]);
}

#[test]
fn captures_of_distinct_positions_differ() {
    let store = vec![entry(1, blue())];
    let region = Rect::new(Point::new(0, 0), Size::new(8, 8));
    let first = rasterize(&vec![image_at(5, 5, 2, 2, 1)], &store, white(), region);
    let second = rasterize(&vec![image_at(5, 6, 2, 2, 1)], &store, white(), region);
    assert_ne!(first, second);
}
