use render_harness::color::{serialize_blob, ColorU};
use render_harness::geom::{Point, Rect, Size};
use render_harness::harness::{buffers_differ, RawtestHarness};
use render_harness::renderer::ModelRenderer;
use render_harness::scene::{
    DisplayListBuilder, Epoch, ImageDescriptor, ImageFormat, ImageRendering, PipelineId,
    ResourceUpdates,
};

fn white() -> ColorU {
    ColorU { r: 255, g: 255, b: 255, a: 255 }
}

fn blue() -> ColorU {
    ColorU { r: 50, g: 50, b: 150, a: 255 }
}

/// A harness over a fresh renderer with one registered blob image, plus the
/// key the image got.
fn harness_with_blob(
    window: Size,
) -> (RawtestHarness, render_harness::scene::ImageKey, ResourceUpdates) {
    let mut renderer = ModelRenderer::new();
    let key = renderer.generate_image_key();
    let mut resources = ResourceUpdates::new();
    resources.add_image(
        key,
        ImageDescriptor::new(500, 500, ImageFormat::BGRA8, true),
        serialize_blob(blue()),
        None,
    );
    (RawtestHarness::new(renderer, window), key, resources)
}

fn single_image_list(
    x: u32,
    y: u32,
    key: render_harness::scene::ImageKey,
) -> render_harness::scene::DisplayList {
    let mut builder = DisplayListBuilder::new(PipelineId(0, 0), Size::new(400, 400));
    builder.push_image(
        Rect::new(Point::new(x, y), Size::new(200, 200)),
        Size::new(200, 200),
        Size::new(0, 0),
        ImageRendering::Auto,
        key,
    );
    builder.finalize()
}

#[test]
fn scripted_scenario_buffers_are_unequal() {
    let renderer = ModelRenderer::new();
    let mut harness = RawtestHarness::new(renderer, Size::new(400, 400));
    let (pixels_first, pixels_second) = harness.retained_blob_images_scenario();
    assert!(pixels_first != pixels_second);
    assert_eq!(pixels_first.len(), 400 * 400 * 4);
    assert_eq!(pixels_second.len(), 400 * 400 * 4);
}

#[test]
fn scripted_scenario_pixel_values() {
    let renderer = ModelRenderer::new();
    let mut harness = RawtestHarness::new(renderer, Size::new(400, 400));
    let (pixels_first, pixels_second) = harness.retained_blob_images_scenario();
    // Pixel (0, 60): covered by the first placement only.
    let at = |pixels: &Vec<u8>, x: usize, y: usize| {
        let base: usize = 4 * (y * 400 + x);
        (pixels[base], pixels[base + 1], pixels[base + 2], pixels[base + 3])
    };
    assert_eq!(at(&pixels_first, 0, 60), (50, 50, 150, 255));
    assert_eq!(at(&pixels_second, 0, 60), (255, 255, 255, 255));
    // Pixel (200, 60): covered by the second placement only.
    assert_eq!(at(&pixels_first, 200, 60), (255, 255, 255, 255));
    assert_eq!(at(&pixels_second, 200, 60), (50, 50, 150, 255));
    // Pixel (100, 100): covered by both; above the image region is background.
    assert_eq!(at(&pixels_first, 100, 100), (50, 50, 150, 255));
    assert_eq!(at(&pixels_second, 100, 100), (50, 50, 150, 255));
    assert_eq!(at(&pixels_first, 100, 10), (255, 255, 255, 255));
}

#[test]
fn scripted_scenario_in_a_taller_window() {
    // Read-back rows count from the window's bottom, so in a 640x480 window
    // the bottom-anchored rectangle still captures the scene's top 400 rows
    // and the buffers hold the same pixels as in a 400x400 window.
    let renderer = ModelRenderer::new();
    let mut harness = RawtestHarness::new(renderer, Size::new(640, 480));
    let (pixels_first, pixels_second) = harness.retained_blob_images_scenario();
    assert!(pixels_first != pixels_second);
    assert_eq!(pixels_first.len(), 400 * 400 * 4);
    let base: usize = 4 * (60 * 400 + 0);
    assert_eq!(pixels_first[base], 50);
    assert_eq!(pixels_second[base], 255);
}

#[test]
fn scripted_scenario_captures_epochs_in_order() {
    let renderer = ModelRenderer::new();
    let mut harness = RawtestHarness::new(renderer, Size::new(400, 400));
    assert!(harness.captured_epochs.is_empty());
    let _ = harness.retained_blob_images_scenario();
    assert_eq!(harness.captured_epochs, vec![Epoch(0), Epoch(1)]);
}

#[test]
fn readback_counts_rows_from_the_window_bottom() {
    // A 10x10 window with one 1x1 image at scene position (0, 8). Reading
    // back the bottom two framebuffer rows returns scene rows 8 and 9, so
    // the image is the first pixel of the buffer.
    let (mut harness, key, resources) = harness_with_blob(Size::new(10, 10));
    let mut builder = DisplayListBuilder::new(PipelineId(0, 0), Size::new(10, 10));
    builder.push_image(
        Rect::new(Point::new(0, 8), Size::new(1, 1)),
        Size::new(1, 1),
        Size::new(0, 0),
        ImageRendering::Auto,
        key,
    );
    harness.submit_and_request(builder.finalize(), resources, Epoch(0), white());
    let pixels = harness.render_and_capture(Rect::new(Point::new(0, 0), Size::new(2, 2)));
    assert_eq!(
        pixels,
        vec![50, 50, 150, 255, 255, 255, 255, 255, 255, 255, 255, 255, 255, 255, 255, 255],
    );
}

#[test]
fn run_reports_the_check_passed() {
    let renderer = ModelRenderer::new();
    let harness = RawtestHarness::new(renderer, Size::new(400, 400));
    assert!(harness.run());
}

#[test]
fn two_submissions_are_captured_in_order() {
    let (mut harness, key, resources) = harness_with_blob(Size::new(400, 400));
    assert_eq!(harness.pending_notifications(), 0);
    harness.submit_and_request(single_image_list(0, 60, key), resources, Epoch(0), white());
    harness.submit_and_request(
        single_image_list(1, 60, key),
        ResourceUpdates::new(),
        Epoch(1),
        white(),
    );
    assert_eq!(harness.pending_notifications(), 2);
    let region = Rect::new(Point::new(0, 0), Size::new(400, 400));
    let first = harness.render_and_capture(region);
    assert_eq!(harness.pending_notifications(), 1);
    let second = harness.render_and_capture(region);
    assert_eq!(harness.pending_notifications(), 0);
    // The first capture shows the first submission's placement: its pixel
    // (0, 60) is the image color there, background in the second capture.
    let base: usize = 4 * (60 * 400 + 0);
    assert_eq!(first[base], 50);
    assert_eq!(second[base], 255);
}

#[test]
fn capture_byte_length_is_area_times_four() {
    let (mut harness, key, resources) = harness_with_blob(Size::new(400, 400));
    harness.submit_and_request(single_image_list(0, 60, key), resources, Epoch(0), white());
    let pixels = harness.render_and_capture(Rect::new(Point::new(10, 20), Size::new(30, 7)));
    assert_eq!(pixels.len(), 30 * 7 * 4);
}

#[test]
fn capturing_the_same_frame_twice_is_identical() {
    let mut renderer = ModelRenderer::new();
    let key = renderer.generate_image_key();
    let mut resources = ResourceUpdates::new();
    resources.add_image(
        key,
        ImageDescriptor::new(500, 500, ImageFormat::BGRA8, true),
        serialize_blob(blue()),
        None,
    );
    renderer.set_display_list(Epoch(0), white(), Size::new(400, 400), single_image_list(0, 60, key), resources);
    renderer.generate_frame();
    renderer.render();
    let region = Rect::new(Point::new(0, 0), Size::new(400, 400));
    let first = renderer.read_pixels_rgba8(region);
    let second = renderer.read_pixels_rgba8(region);
    assert_eq!(first, second);
}

#[test]
fn generated_keys_are_distinct() {
    let mut renderer = ModelRenderer::new();
    let a = renderer.generate_image_key();
    let b = renderer.generate_image_key();
    assert_ne!(a, b);
}

#[test]
fn buffers_differ_spots_a_difference() {
    assert!(buffers_differ(&vec![1, 2, 3], &vec![1, 2, 4]));
    assert!(buffers_differ(&vec![1, 2], &vec![1, 2, 3]));
    assert!(!buffers_differ(&vec![1, 2, 3], &vec![1, 2, 3]));
    assert!(!buffers_differ(&Vec::new(), &Vec::new()));
}
