//! Scene description values: image resources, display lists and the
//! batched resource updates that accompany a scene submission.

use vstd::prelude::*;
use crate::geom::{Rect, Size};

verus! {

/// An opaque identifier for an image resource, allocated by the renderer.
#[derive(Clone, Copy, Debug, PartialEq, Eq, Structural)]
pub struct ImageKey(pub u32);

/// A monotonically increasing version tag for a submitted scene; the
/// renderer uses it to discard stale in-flight frames.
#[derive(Clone, Copy, Debug, PartialEq, Eq, Structural)]
pub struct Epoch(pub u32);

/// Identifies the pipeline a display list belongs to.
#[derive(Clone, Copy, Debug, PartialEq, Eq, Structural)]
pub struct PipelineId(pub u32, pub u32);

/// Storage format of an image resource's pixels.
#[derive(Clone, Copy, Debug, PartialEq, Eq, Structural)]
pub enum ImageFormat {
    R8,
    RGB8,
    BGRA8,
}

/// Filtering the renderer applies when an image is scaled.
#[derive(Clone, Copy, Debug, PartialEq, Eq, Structural)]
pub enum ImageRendering {
    Auto,
    CrispEdges,
    Pixelated,
}

/// Describes an image resource: its dimensions, pixel format, and whether
/// its alpha channel is known to be fully opaque.
#[derive(Clone, Copy, Debug, PartialEq, Eq, Structural)]
pub struct ImageDescriptor {
    pub width: u32,
    pub height: u32,
    pub format: ImageFormat,
    pub is_opaque: bool,
}

impl ImageDescriptor {
    pub fn new(width: u32, height: u32, format: ImageFormat, is_opaque: bool) -> (d:
        ImageDescriptor)
        ensures
            d == (ImageDescriptor { width, height, format, is_opaque }),
    {
        ImageDescriptor { width, height, format, is_opaque }
    }
}

/// One drawing primitive of a display list: draw the image registered under
/// `key` so that it covers `rect`.
#[derive(Clone, Copy, Debug, PartialEq, Eq, Structural)]
pub struct ImageItem {
    /// Bounds the image covers, in device pixels.
    pub rect: Rect,
    /// Size one tile of the image is stretched to.
    pub stretch_size: Size,
    /// Gap left between repeated tiles.
    pub tile_spacing: Size,
    /// Scaling filter.
    pub rendering: ImageRendering,
    /// The image resource to draw.
    pub key: ImageKey,
}

/// A finalized display list: an ordered sequence of drawing primitives for
/// one pipeline. Later items are drawn on top of earlier ones.
pub struct DisplayList {
    pub pipeline_id: PipelineId,
    pub layout_size: Size,
    pub items: Vec<ImageItem>,
}

/// Accumulates drawing primitives and finalizes them into a [`DisplayList`].
pub struct DisplayListBuilder {
    pub pipeline_id: PipelineId,
    pub layout_size: Size,
    pub items: Vec<ImageItem>,
}

impl DisplayListBuilder {
    pub fn new(pipeline_id: PipelineId, layout_size: Size) -> (b: DisplayListBuilder)
        ensures
            b.pipeline_id == pipeline_id,
            b.layout_size == layout_size,
            b.items@ == Seq::<ImageItem>::empty(),
    {
        DisplayListBuilder { pipeline_id, layout_size, items: Vec::new() }
    }

    /// Append one image primitive; it will be drawn on top of everything
    /// pushed before it.
    pub fn push_image(
        &mut self,
        rect: Rect,
        stretch_size: Size,
        tile_spacing: Size,
        rendering: ImageRendering,
        key: ImageKey,
    )
        ensures
            final(self).pipeline_id == old(self).pipeline_id,
            final(self).layout_size == old(self).layout_size,
            final(self).items@ == old(self).items@.push(
                (ImageItem { rect, stretch_size, tile_spacing, rendering, key }),
            ),
    {
        self.items.push(ImageItem { rect, stretch_size, tile_spacing, rendering, key });
    }

    /// Turn the accumulated primitives into a finalized display list.
    pub fn finalize(self) -> (dl: DisplayList)
        ensures
            dl.pipeline_id == self.pipeline_id,
            dl.layout_size == self.layout_size,
            dl.items@ == self.items@,
    {
        DisplayList {
            pipeline_id: self.pipeline_id,
            layout_size: self.layout_size,
            items: self.items,
        }
    }
}

/// One deferred resource registration: define the image `key` with the given
/// descriptor and blob payload. `tiling`, when set, asks the renderer to cut
/// the blob into tiles of that side length.
pub struct AddImage {
    pub key: ImageKey,
    pub descriptor: ImageDescriptor,
    pub data: Vec<u8>,
    pub tiling: Option<u16>,
}

/// A batch of resource registrations submitted alongside a display list.
pub struct ResourceUpdates {
    pub updates: Vec<AddImage>,
}

impl ResourceUpdates {
    pub fn new() -> (r: ResourceUpdates)
        ensures
            r.updates@.len() == 0,
    {
        ResourceUpdates { updates: Vec::new() }
    }

    /// Defer the registration of blob image content under `key`.
    pub fn add_image(
        &mut self,
        key: ImageKey,
        descriptor: ImageDescriptor,
        data: Vec<u8>,
        tiling: Option<u16>,
    )
        ensures
            final(self).updates@.len() == old(self).updates@.len() + 1,
            final(self).updates@.last().key == key,
            final(self).updates@.last().descriptor == descriptor,
            final(self).updates@.last().data@ == data@,
            final(self).updates@.last().tiling == tiling,
            forall|i: int|
                0 <= i < old(self).updates@.len() ==> final(self).updates@[i] == old(
                    self,
                ).updates@[i],
    {
        self.updates.push(AddImage { key, descriptor, data, tiling });
    }
}

} // verus!
