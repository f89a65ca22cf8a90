//! The render-and-capture harness: a synchronous bridge over an
//! asynchronous renderer, plus its one scripted regression scenario.
//!
//! The harness submits a scene and requests a frame without blocking, then
//! blocks until the frame-ready notification arrives before rendering and
//! reading pixels back. Notifications arrive in submission order, one per
//! requested frame; both facts are part of the contracts below.

use vstd::prelude::*;
use crate::color::{serialize_blob, spec_deserialize_blob, ColorU};
use crate::geom::{bottom_anchored_rect, scene_region, spec_scene_region, Point, Rect, Size};
use crate::raster::{lemma_distinct_positions_capture_differently, spec_capture_bytes};
use crate::renderer::{
    spec_after_capture, spec_captured_frame, spec_frame_bytes, ModelRenderer,
};
use crate::scene::{
    DisplayList, DisplayListBuilder, Epoch, ImageDescriptor, ImageFormat, ImageItem, ImageKey,
    ImageRendering, PipelineId, ResourceUpdates,
};
use crate::store::{
    spec_apply_updates, spec_entry_of, spec_lookup, spec_updates_valid, ImageEntry,
};

verus! {

/// Compare two pixel buffers byte for byte.
pub fn buffers_differ(first: &Vec<u8>, second: &Vec<u8>) -> (differ: bool)
    ensures
        differ == (first@ != second@),
{
    if first.len() != second.len() {
        return true;
    }
    let mut i: usize = 0;
    while i < first.len()
        invariant
            i <= first@.len(),
            first@.len() == second@.len(),
            forall|j: int| 0 <= j < i ==> first@[j] == second@[j],
        decreases first@.len() - i,
    {
        if first[i] != second[i] {
            return true;
        }
        i = i + 1;
    }
    proof {
        assert(first@ =~= second@);
    }
    false
}

/// The background color the scripted scenario clears each frame to: white.
pub open spec fn spec_scenario_background() -> ColorU {
    ColorU { r: 255, g: 255, b: 255, a: 255 }
}

/// The solid color the scripted scenario's blob image encodes.
pub open spec fn spec_scenario_blob_color() -> ColorU {
    ColorU { r: 50, g: 50, b: 150, a: 255 }
}

/// The descriptor the scripted scenario registers its blob image under:
/// 500 by 500, BGRA8, opaque.
pub open spec fn spec_scenario_descriptor() -> ImageDescriptor {
    ImageDescriptor { width: 500, height: 500, format: ImageFormat::BGRA8, is_opaque: true }
}

/// The one display item of each scripted frame: the blob image under `key`,
/// drawn 200 by 200 at position `(x, 60)`.
pub open spec fn spec_scenario_item(key: ImageKey, x: u32) -> ImageItem {
    ImageItem {
        rect: Rect { origin: Point { x, y: 60 }, size: Size { width: 200, height: 200 } },
        stretch_size: Size { width: 200, height: 200 },
        tile_spacing: Size { width: 0, height: 0 },
        rendering: ImageRendering::Auto,
        key,
    }
}

/// The region the scripted scenario captures from its 400 by 400 window.
pub open spec fn spec_scenario_region() -> Rect {
    Rect { origin: Point { x: 0, y: 0 }, size: Size { width: 400, height: 400 } }
}

/// Drives a renderer through the submit / wait / render / read-back cycle.
/// The renderer's queue of generated frames stands for the notification
/// channel: one entry per requested frame, consumed oldest-first.
pub struct RawtestHarness {
    pub renderer: ModelRenderer,
    pub window_size: Size,
    /// The epochs of the frames captured so far, oldest first: the harness's
    /// log of which submissions its captures consumed, and in what order.
    pub captured_epochs: Vec<Epoch>,
}

impl RawtestHarness {
    /// Take ownership of the renderer and the window it draws into. The
    /// harness is the renderer's frame-completion listener from here on.
    pub fn new(renderer: ModelRenderer, window_size: Size) -> (harness: RawtestHarness)
        ensures
            harness.renderer == renderer,
            harness.window_size == window_size,
            harness.captured_epochs@ == Seq::<Epoch>::empty(),
    {
        RawtestHarness { renderer, window_size, captured_epochs: Vec::new() }
    }

    /// How many requested frames have not yet been captured: the number of
    /// frame-ready notifications still owed to the harness.
    pub fn pending_notifications(&self) -> (n: usize)
        ensures
            n == self.renderer.ready@.len(),
    {
        self.renderer.ready.len()
    }

    /// Submit a scene for the given epoch together with its resource
    /// registrations, and request a frame for it. Does not block: the
    /// requested frame joins the notification queue.
    pub fn submit_and_request(
        &mut self,
        display_list: DisplayList,
        resources: ResourceUpdates,
        epoch: Epoch,
        background: ColorU,
    )
        requires
            old(self).renderer.wf(),
            spec_updates_valid(resources.updates@),
            forall|i: int|
                0 <= i < resources.updates@.len() ==> (#[trigger] resources.updates@[i]).key.0
                    < old(self).renderer.next_image_key,
        ensures
            final(self).renderer.wf(),
            final(self).window_size == old(self).window_size,
            final(self).renderer.store@ == spec_apply_updates(
                old(self).renderer.store@,
                resources.updates@,
            ),
            final(self).renderer.ready@.len() == old(self).renderer.ready@.len() + 1,
            forall|i: int|
                0 <= i < old(self).renderer.ready@.len() ==> final(self).renderer.ready@[i] == old(
                    self,
                ).renderer.ready@[i],
            final(self).renderer.ready@.last().epoch == epoch,
            final(self).renderer.ready@.last().pipeline_id == display_list.pipeline_id,
            final(self).renderer.ready@.last().background == background,
            final(self).renderer.ready@.last().layout_size == display_list.layout_size,
            final(self).renderer.ready@.last().items@ == display_list.items@,
            final(self).renderer.staged is None,
            final(self).renderer.presented == old(self).renderer.presented,
            final(self).renderer.next_image_key == old(self).renderer.next_image_key,
            final(self).captured_epochs@ == old(self).captured_epochs@,
    {
        let layout_size = display_list.layout_size;
        self.renderer.set_display_list(epoch, background, layout_size, display_list, resources);
        self.renderer.generate_frame();
    }

    /// Block until the oldest outstanding frame-ready notification, then
    /// render that frame and read back the pixels of `region`. Requires a
    /// notification to be owed: waiting without one would never return.
    ///
    /// `region` is a read-back rectangle in framebuffer coordinates, rows
    /// counting up from the window's bottom edge, and must lie within the
    /// window's height; the pixels returned are those of the scene region it
    /// covers (see [`spec_scene_region`]), row-major, top-to-bottom.
    pub fn render_and_capture(&mut self, region: Rect) -> (pixels: Vec<u8>)
        requires
            old(self).renderer.ready@.len() > 0,
            region.spec_area() * 4 <= usize::MAX,
            region.origin.x + region.size.width <= u32::MAX,
            region.origin.y + region.size.height <= old(self).window_size.height,
        ensures
            final(self).window_size == old(self).window_size,
            final(self).renderer.ready@ == spec_after_capture(old(self).renderer.ready@),
            final(self).renderer.presented == Some(
                spec_captured_frame(old(self).renderer.ready@),
            ),
            final(self).renderer.store@ == old(self).renderer.store@,
            final(self).renderer.staged == old(self).renderer.staged,
            final(self).renderer.next_image_key == old(self).renderer.next_image_key,
            old(self).renderer.wf() ==> final(self).renderer.wf(),
            final(self).captured_epochs@ == old(self).captured_epochs@.push(
                spec_captured_frame(old(self).renderer.ready@).epoch,
            ),
            pixels@ == spec_frame_bytes(
                spec_captured_frame(old(self).renderer.ready@),
                old(self).renderer.store@,
                spec_scene_region(old(self).window_size, region),
            ),
            pixels@.len() == region.spec_area() * 4,
    {
        let region_scene = scene_region(self.window_size, region);
        self.renderer.render();
        let epoch = match &self.renderer.presented {
            Some(frame) => frame.epoch,
            None => {
                proof {
                    assert(false);
                }
                Epoch(0)
            },
        };
        self.captured_epochs.push(epoch);
        self.renderer.read_pixels_rgba8(region_scene)
    }

    /// The scripted regression scenario. Register one solid-color blob image
    /// (500 by 500, BGRA8, opaque); submit a scene drawing it at position
    /// (0, 60) with size 200 by 200 under epoch 0 and request a frame; submit
    /// a second scene drawing the same image key at (1, 60) under epoch 1 and
    /// request a frame; then render and capture both frames over the same
    /// 400 by 400 read-back rectangle anchored at the bottom of the window.
    /// The window may be any size at least 400 by 400: read-back rows count
    /// from the window's bottom, so the bottom-anchored rectangle always
    /// covers the scene's top 400 rows, where the image is placed.
    ///
    /// Moving a retained blob image must invalidate the previous raster
    /// output rather than serving a stale cached frame, so the two captures
    /// are — provably — not byte-equal.
    pub fn retained_blob_images_scenario(&mut self) -> (pixels: (Vec<u8>, Vec<u8>))
        requires
            old(self).renderer.wf(),
            old(self).renderer.ready@.len() == 0,
            old(self).renderer.next_image_key < u32::MAX,
            old(self).window_size.width >= 400,
            old(self).window_size.height >= 400,
        ensures
            pixels.0@ != pixels.1@,
            pixels.0@.len() == 400 * 400 * 4,
            pixels.1@.len() == 400 * 400 * 4,
            final(self).renderer.wf(),
            final(self).renderer.ready@.len() == 0,
            final(self).renderer.staged is None,
            final(self).renderer.next_image_key == old(self).renderer.next_image_key + 1,
            final(self).window_size == old(self).window_size,
            final(self).captured_epochs@ == old(self).captured_epochs@ + seq![
                Epoch(0),
                Epoch(1),
            ],
            final(self).renderer.presented is Some,
            final(self).renderer.presented->0.epoch == Epoch(1),
            final(self).renderer.presented->0.items@ == seq![
                spec_scenario_item(ImageKey(old(self).renderer.next_image_key), 1),
            ],
            final(self).renderer.presented->0.background == spec_scenario_background(),
            final(self).renderer.store@ == old(self).renderer.store@.push(
                (ImageEntry {
                    key: ImageKey(old(self).renderer.next_image_key),
                    descriptor: spec_scenario_descriptor(),
                    color: spec_scenario_blob_color(),
                }),
            ),
            pixels.0@ == spec_capture_bytes(
                seq![spec_scenario_item(ImageKey(old(self).renderer.next_image_key), 0)],
                final(self).renderer.store@,
                spec_scenario_background(),
                spec_scenario_region(),
            ),
            pixels.1@ == spec_capture_bytes(
                seq![spec_scenario_item(ImageKey(old(self).renderer.next_image_key), 1)],
                final(self).renderer.store@,
                spec_scenario_background(),
                spec_scenario_region(),
            ),
    {
        let window_size = self.window_size;
        let test_size = Size::new(400, 400);
        let window_rect = bottom_anchored_rect(window_size, test_size);
        let layout_size = Size::new(400, 400);
        let pipeline_id = PipelineId(0, 0);
        let root_background_color = ColorU::new(255, 255, 255, 255);
        let blob_color = ColorU::new(50, 50, 150, 255);

        let blob_img = self.renderer.generate_image_key();
        let mut resources = ResourceUpdates::new();
        resources.add_image(
            blob_img,
            ImageDescriptor::new(500, 500, ImageFormat::BGRA8, true),
            serialize_blob(blob_color),
            None,
        );
        let ghost updates0 = resources.updates@;
        proof {
            assert forall|i: int| 0 <= i < updates0.len() implies #[trigger] spec_deserialize_blob(
                updates0[i].data@,
            ) is Some by {
                assert(updates0[i] == updates0.last());
            }
            assert forall|i: int|
                0 <= i < updates0.len() implies (#[trigger] updates0[i]).key.0
                < self.renderer.next_image_key by {
                assert(updates0[i] == updates0.last());
            }
        }

        // Draw the blob image the first time.
        let mut builder = DisplayListBuilder::new(pipeline_id, layout_size);
        builder.push_image(
            Rect::new(Point::new(0, 60), Size::new(200, 200)),
            Size::new(200, 200),
            Size::new(0, 0),
            ImageRendering::Auto,
            blob_img,
        );
        let display_list = builder.finalize();
        let ghost items1 = display_list.items@;
        let ghost store_before = self.renderer.store@;
        self.submit_and_request(display_list, resources, Epoch(0), root_background_color);
        let ghost store1 = self.renderer.store@;
        let ghost q1 = self.renderer.ready@;
        proof {
            assert(store1.len() == store_before.len() + 1);
            assert(store1.last() == spec_entry_of(updates0[0]));
            assert(spec_lookup(store1, blob_img) == Some(blob_color));
        }

        // Draw the blob image a second time, one pixel to the right, with a
        // fresh display list that refers to the first image.
        let mut builder = DisplayListBuilder::new(pipeline_id, layout_size);
        builder.push_image(
            Rect::new(Point::new(1, 60), Size::new(200, 200)),
            Size::new(200, 200),
            Size::new(0, 0),
            ImageRendering::Auto,
            blob_img,
        );
        let display_list = builder.finalize();
        let ghost items2 = display_list.items@;
        self.submit_and_request(display_list, ResourceUpdates::new(), Epoch(1), root_background_color);
        let ghost store2 = self.renderer.store@;
        let ghost q2 = self.renderer.ready@;
        proof {
            assert(store2 =~= store1);
            assert(q2.len() == 2);
            assert(q2[0] == q1[0] && q1[0] == q1.last());
            assert(q2[1] == q2.last());
        }

        let pixels_first = self.render_and_capture(window_rect);
        let ghost q3 = self.renderer.ready@;
        let pixels_second = self.render_and_capture(window_rect);

        proof {
            // The bottom-anchored read-back covers the scene's top 400 rows.
            let capture_region = spec_scene_region(window_size, window_rect);
            assert(capture_region == spec_scenario_region());
            let item1 = ImageItem {
                rect: Rect {
                    origin: Point { x: 0, y: 60 },
                    size: Size { width: 200, height: 200 },
                },
                stretch_size: Size { width: 200, height: 200 },
                tile_spacing: Size { width: 0, height: 0 },
                rendering: ImageRendering::Auto,
                key: blob_img,
            };
            let item2 = ImageItem {
                rect: Rect {
                    origin: Point { x: 1, y: 60 },
                    size: Size { width: 200, height: 200 },
                },
                stretch_size: Size { width: 200, height: 200 },
                tile_spacing: Size { width: 0, height: 0 },
                rendering: ImageRendering::Auto,
                key: blob_img,
            };
            assert(items1 =~= seq![item1]);
            assert(items2 =~= seq![item2]);
            assert(q3[0] == q2[1]);
            let f1 = spec_captured_frame(q2);
            let f2 = spec_captured_frame(q3);
            assert(f1.items@ == items1 && f1.background == root_background_color);
            assert(f2.items@ == items2 && f2.background == root_background_color);
            assert(pixels_first@ == spec_capture_bytes(
                seq![item1],
                store2,
                root_background_color,
                capture_region,
            ));
            assert(pixels_second@ == spec_capture_bytes(
                seq![item2],
                store2,
                root_background_color,
                capture_region,
            ));
            assert forall|x: int, y: int| item1.rect.spec_contains(x, y) implies capture_region
                .spec_contains(x, y) by {}
            assert forall|x: int, y: int| item2.rect.spec_contains(x, y) implies capture_region
                .spec_contains(x, y) by {}
            assert(spec_lookup(store2, blob_img) == Some(blob_color));
            assert(blob_color.r != root_background_color.r);
            assert(item1.rect.origin.x != item2.rect.origin.x);
            lemma_distinct_positions_capture_differently(
                store2,
                root_background_color,
                item1,
                item2,
                capture_region,
            );
            assert(pixels_first@ != pixels_second@);
            // The captures are exactly the scripted frames' renderings, in
            // submission order: epoch 0 first, epoch 1 second.
            assert(item1 == spec_scenario_item(blob_img, 0));
            assert(item2 == spec_scenario_item(blob_img, 1));
            assert(f1.epoch == Epoch(0) && f2.epoch == Epoch(1));
            assert(self.captured_epochs@ =~= old(self).captured_epochs@ + seq![
                Epoch(0),
                Epoch(1),
            ]);
            assert(store2 =~= old(self).renderer.store@.push(
                (ImageEntry {
                    key: ImageKey(old(self).renderer.next_image_key),
                    descriptor: spec_scenario_descriptor(),
                    color: spec_scenario_blob_color(),
                }),
            ));
        }
        (pixels_first, pixels_second)
    }

    /// Run the harness's one scripted test — the retained-blob scenario —
    /// and report whether its regression check passed. It provably always
    /// does: the two captured buffers differ.
    pub fn run(self) -> (passed: bool)
        requires
            self.renderer.wf(),
            self.renderer.ready@.len() == 0,
            self.renderer.next_image_key < u32::MAX,
            self.window_size.width >= 400,
            self.window_size.height >= 400,
        ensures
            passed,
    {
        let mut harness = self;
        let (pixels_first, pixels_second) = harness.retained_blob_images_scenario();
        buffers_differ(&pixels_first, &pixels_second)
    }
}

} // verus!
