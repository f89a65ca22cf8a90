//! A reference model of the renderer collaborator: it gives an exact meaning
//! to every call the harness makes, so the harness's behaviour over it can be
//! verified end to end.
//!
//! The frame-ready notification channel is modelled by the FIFO queue of
//! generated frames: one queue entry per `generate_frame`, consumed in order
//! by each render-and-capture.

use vstd::prelude::*;
use crate::color::ColorU;
use crate::geom::{Rect, Size};
use crate::raster::{rasterize, spec_capture_bytes};
use crate::scene::{DisplayList, Epoch, ImageItem, ImageKey, PipelineId, ResourceUpdates};
use crate::store::{
    apply_updates, lemma_lookup_absent, spec_apply_updates, spec_entry_of, spec_lookup,
    spec_updates_valid, ImageEntry,
};

verus! {

/// One generated frame: the scene a display-list submission described,
/// tagged with the epoch it was submitted under.
pub struct Frame {
    pub epoch: Epoch,
    pub pipeline_id: PipelineId,
    pub background: ColorU,
    pub layout_size: Size,
    pub items: Vec<ImageItem>,
}

/// The bytes a capture of `rect` returns while `frame` is presented.
pub open spec fn spec_frame_bytes(frame: Frame, store: Seq<ImageEntry>, rect: Rect) -> Seq<u8> {
    spec_capture_bytes(frame.items@, store, frame.background, rect)
}

/// The notification queue after one more frame has been generated.
pub open spec fn spec_submit(queue: Seq<Frame>, frame: Frame) -> Seq<Frame> {
    queue.push(frame)
}

/// The frame the next capture renders: the oldest generated one.
pub open spec fn spec_captured_frame(queue: Seq<Frame>) -> Frame
    recommends
        queue.len() > 0,
{
    queue[0]
}

/// The notification queue after one capture has consumed its notification.
pub open spec fn spec_after_capture(queue: Seq<Frame>) -> Seq<Frame>
    recommends
        queue.len() > 0,
{
    queue.subrange(1, queue.len() as int)
}

/// The renderer model's whole state.
pub struct ModelRenderer {
    /// Registered image resources.
    pub store: Vec<ImageEntry>,
    /// The scene of the most recent display-list submission, not yet
    /// requested as a frame.
    pub staged: Option<Frame>,
    /// Generated frames whose frame-ready notification is still unconsumed,
    /// oldest first.
    pub ready: Vec<Frame>,
    /// The frame the last render pass put on screen.
    pub presented: Option<Frame>,
    /// The next image key to hand out.
    pub next_image_key: u32,
}

impl ModelRenderer {
    /// Every registered key was handed out earlier, so keys yet to be handed
    /// out are fresh.
    pub open spec fn wf(self) -> bool {
        forall|i: int|
            0 <= i < self.store@.len() ==> (#[trigger] self.store@[i]).key.0 < self.next_image_key
    }

    /// A renderer with no resources, no scene and no pending frames.
    pub fn new() -> (r: ModelRenderer)
        ensures
            r.wf(),
            r.store@.len() == 0,
            r.staged is None,
            r.ready@.len() == 0,
            r.presented is None,
            r.next_image_key == 1,
    {
        ModelRenderer {
            store: Vec::new(),
            staged: None,
            ready: Vec::new(),
            presented: None,
            next_image_key: 1,
        }
    }

    /// Allocate a fresh identifier for an image resource: one no current
    /// entry of the store carries.
    pub fn generate_image_key(&mut self) -> (key: ImageKey)
        requires
            old(self).wf(),
            old(self).next_image_key < u32::MAX,
        ensures
            final(self).wf(),
            key == (ImageKey(old(self).next_image_key)),
            key.0 < final(self).next_image_key,
            spec_lookup(final(self).store@, key) is None,
            final(self).next_image_key == old(self).next_image_key + 1,
            final(self).store@ == old(self).store@,
            final(self).staged == old(self).staged,
            final(self).ready@ == old(self).ready@,
            final(self).presented == old(self).presented,
    {
        let key = ImageKey(self.next_image_key);
        self.next_image_key = self.next_image_key + 1;
        proof {
            lemma_lookup_absent(self.store@, key);
        }
        key
    }

    /// Submit a complete scene: apply the batched resource registrations to
    /// the store, then stage the display list as the scene of the next frame.
    pub fn set_display_list(
        &mut self,
        epoch: Epoch,
        background: ColorU,
        layout_size: Size,
        display_list: DisplayList,
        resources: ResourceUpdates,
    )
        requires
            old(self).wf(),
            spec_updates_valid(resources.updates@),
            forall|i: int|
                0 <= i < resources.updates@.len() ==> (#[trigger] resources.updates@[i]).key.0
                    < old(self).next_image_key,
        ensures
            final(self).wf(),
            final(self).store@ == spec_apply_updates(old(self).store@, resources.updates@),
            final(self).staged is Some,
            final(self).staged->0.epoch == epoch,
            final(self).staged->0.pipeline_id == display_list.pipeline_id,
            final(self).staged->0.background == background,
            final(self).staged->0.layout_size == display_list.layout_size,
            final(self).staged->0.items@ == display_list.items@,
            final(self).ready@ == old(self).ready@,
            final(self).presented == old(self).presented,
            final(self).next_image_key == old(self).next_image_key,
    {
        apply_updates(&mut self.store, &resources);
        self.staged = Some(
            Frame {
                epoch,
                pipeline_id: display_list.pipeline_id,
                background,
                layout_size: display_list.layout_size,
                items: display_list.items,
            },
        );
        proof {
            assert forall|i: int| 0 <= i < self.store@.len() implies (
            #[trigger] self.store@[i]).key.0 < self.next_image_key by {
                if i >= old(self).store@.len() {
                    let j = i - old(self).store@.len();
                    assert(self.store@[i] == resources.updates@.map_values(
                        |u: crate::scene::AddImage| spec_entry_of(u),
                    )[j]);
                }
            }
        }
    }

    /// Request that the staged scene be rendered: the frame joins the queue
    /// of generated frames, which will signal frame-ready in FIFO order.
    pub fn generate_frame(&mut self)
        requires
            old(self).staged is Some,
        ensures
            final(self).ready@ == spec_submit(old(self).ready@, old(self).staged->0),
            final(self).staged is None,
            final(self).store@ == old(self).store@,
            final(self).presented == old(self).presented,
            final(self).next_image_key == old(self).next_image_key,
            old(self).wf() ==> final(self).wf(),
    {
        let staged = self.staged.take();
        match staged {
            Some(frame) => {
                self.ready.push(frame);
            },
            None => {
                proof {
                    assert(false);
                }
            },
        }
    }

    /// Execute the render pass for the oldest generated frame, consuming its
    /// frame-ready notification: that frame becomes the presented one.
    pub fn render(&mut self)
        requires
            old(self).ready@.len() > 0,
        ensures
            final(self).presented == Some(spec_captured_frame(old(self).ready@)),
            final(self).ready@ == spec_after_capture(old(self).ready@),
            final(self).store@ == old(self).store@,
            final(self).staged == old(self).staged,
            final(self).next_image_key == old(self).next_image_key,
            old(self).wf() ==> final(self).wf(),
    {
        let frame = self.ready.remove(0);
        self.presented = Some(frame);
        proof {
            assert(self.ready@ =~= spec_after_capture(old(self).ready@));
        }
    }

    /// Read back the pixels of `rect` from the presented frame as RGBA8
    /// bytes. The buffer holds exactly four bytes per pixel of `rect`.
    ///
    /// `rect` is in scene coordinates, y growing downwards from the scene's
    /// top-left. The model's canvas is unbounded: a position no item covers
    /// shows the background, wherever it lies. Orientation and window extent
    /// are the harness's concern — see `RawtestHarness::render_and_capture`,
    /// which converts a framebuffer read-back rectangle to this form.
    pub fn read_pixels_rgba8(&self, rect: Rect) -> (pixels: Vec<u8>)
        requires
            self.presented is Some,
            rect.spec_area() * 4 <= usize::MAX,
            rect.origin.x + rect.size.width <= u32::MAX,
            rect.origin.y + rect.size.height <= u32::MAX,
        ensures
            pixels@ == spec_frame_bytes(self.presented->0, self.store@, rect),
            pixels@.len() == rect.spec_area() * 4,
    {
        match &self.presented {
            Some(frame) => rasterize(&frame.items, &self.store, frame.background, rect),
            None => {
                proof {
                    assert(false);
                }
                Vec::new()
            },
        }
    }
}

/// Two submissions into an empty notification queue followed by two captures
/// consume exactly the two notifications they produced, in submission order:
/// the first capture renders the first submitted frame, the second capture
/// the second, and no notification is left over.
pub proof fn lemma_two_submissions_captured_in_order(
    queue: Seq<Frame>,
    first: Frame,
    second: Frame,
)
    requires
        queue.len() == 0,
    ensures
        ({
            let generated = spec_submit(spec_submit(queue, first), second);
            &&& generated.len() == 2
            &&& spec_captured_frame(generated) == first
            &&& spec_captured_frame(spec_after_capture(generated)) == second
            &&& spec_after_capture(spec_after_capture(generated)).len() == 0
        }),
{
    let generated = spec_submit(spec_submit(queue, first), second);
    assert(spec_after_capture(generated) =~= seq![second]);
}

/// Capturing an already-rendered frame is idempotent: two captures of the
/// same region without a new submission in between return identical buffers.
pub proof fn lemma_capture_idempotent(
    frame: Frame,
    store: Seq<ImageEntry>,
    rect: Rect,
    first: Seq<u8>,
    second: Seq<u8>,
)
    requires
        first == spec_frame_bytes(frame, store, rect),
        second == spec_frame_bytes(frame, store, rect),
    ensures
        first == second,
{
}

} // verus!
