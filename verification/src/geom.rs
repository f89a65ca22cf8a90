//! Integer pixel geometry: points, sizes and rectangles in device pixels.

use vstd::prelude::*;

verus! {

/// A position in device pixels, measured from the top-left corner,
/// x growing rightwards and y growing downwards.
#[derive(Clone, Copy, Debug, PartialEq, Eq, Structural)]
pub struct Point {
    pub x: u32,
    pub y: u32,
}

/// Extents of a rectangular region in device pixels.
#[derive(Clone, Copy, Debug, PartialEq, Eq, Structural)]
pub struct Size {
    pub width: u32,
    pub height: u32,
}

/// An axis-aligned rectangle: an origin (its top-left corner) and a size.
#[derive(Clone, Copy, Debug, PartialEq, Eq, Structural)]
pub struct Rect {
    pub origin: Point,
    pub size: Size,
}

impl Point {
    pub fn new(x: u32, y: u32) -> (p: Point)
        ensures
            p == (Point { x, y }),
    {
        Point { x, y }
    }
}

impl Size {
    pub fn new(width: u32, height: u32) -> (s: Size)
        ensures
            s == (Size { width, height }),
    {
        Size { width, height }
    }

    /// Number of pixels a region of this size covers.
    pub open spec fn spec_area(self) -> int {
        self.width * self.height
    }
}

impl Rect {
    pub fn new(origin: Point, size: Size) -> (r: Rect)
        ensures
            r == (Rect { origin, size }),
    {
        Rect { origin, size }
    }

    /// Number of pixels this rectangle covers.
    pub open spec fn spec_area(self) -> int {
        self.size.spec_area()
    }

    /// The point `(x, y)` lies inside the rectangle. The origin row and
    /// column are inside; the far row and column are not.
    pub open spec fn spec_contains(self, x: int, y: int) -> bool {
        &&& self.origin.x <= x < self.origin.x + self.size.width
        &&& self.origin.y <= y < self.origin.y + self.size.height
    }

    /// Every point of `inner` lies inside `self`.
    pub open spec fn spec_contains_rect(self, inner: Rect) -> bool {
        forall|x: int, y: int| inner.spec_contains(x, y) ==> self.spec_contains(x, y)
    }

    /// Runtime test of [`Rect::spec_contains`].
    pub fn contains(&self, x: u32, y: u32) -> (b: bool)
        ensures
            b == self.spec_contains(x as int, y as int),
    {
        self.origin.x <= x && (x as u64) < self.origin.x as u64 + self.size.width as u64
            && self.origin.y <= y && (y as u64) < self.origin.y as u64 + self.size.height as u64
    }
}

/// A rectangle of size `test_size` anchored at the bottom-left corner of a
/// window of size `window_size`: the read-back region the harness captures.
/// It is given in framebuffer coordinates, where a read-back's y origin
/// counts rows up from the window's bottom edge, so the returned rectangle
/// reads the top `test_size.height` rows of the scene whatever the window's
/// height.
pub fn bottom_anchored_rect(window_size: Size, test_size: Size) -> (r: Rect)
    requires
        test_size.width <= window_size.width,
        test_size.height <= window_size.height,
    ensures
        r.origin.x == 0,
        r.origin.y == window_size.height - test_size.height,
        r.size == test_size,
{
    Rect {
        origin: Point { x: 0, y: window_size.height - test_size.height },
        size: test_size,
    }
}

/// The scene-coordinate region a framebuffer read-back rectangle covers in a
/// window `window_size` large: read-back rows count up from the window's
/// bottom edge, scene rows down from its top, so a rectangle anchored at the
/// window's bottom reads the top of the scene.
pub open spec fn spec_scene_region(window_size: Size, framebuffer_rect: Rect) -> Rect {
    Rect {
        origin: Point {
            x: framebuffer_rect.origin.x,
            y: (window_size.height - framebuffer_rect.size.height
                - framebuffer_rect.origin.y) as u32,
        },
        size: framebuffer_rect.size,
    }
}

/// Convert a framebuffer read-back rectangle to the scene-coordinate region
/// it covers; see [`spec_scene_region`].
pub fn scene_region(window_size: Size, framebuffer_rect: Rect) -> (r: Rect)
    requires
        framebuffer_rect.origin.y + framebuffer_rect.size.height <= window_size.height,
    ensures
        r == spec_scene_region(window_size, framebuffer_rect),
{
    Rect {
        origin: Point {
            x: framebuffer_rect.origin.x,
            y: window_size.height - framebuffer_rect.size.height - framebuffer_rect.origin.y,
        },
        size: framebuffer_rect.size,
    }
}

} // verus!
