//! The reference rasterizer: the exact meaning of reading back a pixel
//! region of a rendered frame.
//!
//! A frame is a background color plus an ordered list of image items; later
//! items are drawn on top. Each item fills its bounds with the solid color
//! registered under its key. A capture of a rectangle is the RGBA8 bytes of
//! its pixels, row-major, top-to-bottom.

use vstd::prelude::*;
use vstd::arithmetic::div_mod::lemma_fundamental_div_mod_converse;
use crate::color::ColorU;
use crate::geom::Rect;
use crate::scene::ImageItem;
use crate::store::{lookup, spec_lookup, ImageEntry};

verus! {

/// The color of the pixel at device position `(x, y)`: the topmost item that
/// covers the position and is backed by a registered image wins; a position
/// nothing covers shows the background.
pub open spec fn spec_pixel_at(
    items: Seq<ImageItem>,
    store: Seq<ImageEntry>,
    background: ColorU,
    x: int,
    y: int,
) -> ColorU
    decreases items.len(),
{
    if items.len() == 0 {
        background
    } else if items.last().rect.spec_contains(x, y) && spec_lookup(store, items.last().key)
        is Some {
        spec_lookup(store, items.last().key)->0
    } else {
        spec_pixel_at(items.drop_last(), store, background, x, y)
    }
}

/// The bytes a capture of `rect` returns: four bytes per pixel in the order
/// red, green, blue, alpha; pixels row-major from the rectangle's top-left.
pub open spec fn spec_capture_bytes(
    items: Seq<ImageItem>,
    store: Seq<ImageEntry>,
    background: ColorU,
    rect: Rect,
) -> Seq<u8> {
    Seq::new(
        (rect.spec_area() * 4) as nat,
        |i: int|
            spec_pixel_at(
                items,
                store,
                background,
                rect.origin.x + ((i / 4) % (rect.size.width as int)),
                rect.origin.y + ((i / 4) / (rect.size.width as int)),
            ).spec_channel(i % 4),
    )
}

/// Where the byte for channel `ch` of the pixel in row `row`, column `col`
/// of the captured rectangle sits, and what it holds.
pub proof fn lemma_capture_byte(
    items: Seq<ImageItem>,
    store: Seq<ImageEntry>,
    background: ColorU,
    rect: Rect,
    row: int,
    col: int,
    ch: int,
)
    requires
        0 <= row < rect.size.height,
        0 <= col < rect.size.width,
        0 <= ch < 4,
    ensures
        0 <= (row * rect.size.width + col) * 4 + ch < rect.spec_area() * 4,
        spec_capture_bytes(items, store, background, rect)[(row * rect.size.width + col) * 4 + ch]
            == spec_pixel_at(
            items,
            store,
            background,
            rect.origin.x + col,
            rect.origin.y + row,
        ).spec_channel(ch),
{
    let w = rect.size.width as int;
    let h = rect.size.height as int;
    let p = row * w + col;
    let i = p * 4 + ch;
    assert(0 <= row * w + col) by (nonlinear_arith)
        requires
            0 <= row,
            0 <= col,
            0 <= w,
    ;
    assert(row * w + col < w * h) by (nonlinear_arith)
        requires
            0 <= row,
            row + 1 <= h,
            0 <= col,
            col + 1 <= w,
    ;
    assert(rect.spec_area() == w * h);
    lemma_fundamental_div_mod_converse(i, 4, p, ch);
    lemma_fundamental_div_mod_converse(p, w, row, col);
}

/// The harness's core property: two frames that each draw the same stored
/// image once, at different positions of the same positive size, both inside
/// the captured rectangle, whose color differs from the shared background,
/// capture to different pixel buffers.
pub proof fn lemma_distinct_positions_capture_differently(
    store: Seq<ImageEntry>,
    background: ColorU,
    item1: ImageItem,
    item2: ImageItem,
    rect: Rect,
)
    requires
        item1.key == item2.key,
        item1.rect.size == item2.rect.size,
        item1.rect.origin != item2.rect.origin,
        0 < item1.rect.size.width,
        0 < item1.rect.size.height,
        rect.spec_contains_rect(item1.rect),
        rect.spec_contains_rect(item2.rect),
        spec_lookup(store, item1.key) is Some,
        spec_lookup(store, item1.key)->0 != background,
    ensures
        spec_capture_bytes(seq![item1], store, background, rect) != spec_capture_bytes(
            seq![item2],
            store,
            background,
            rect,
        ),
{
    let c = spec_lookup(store, item1.key)->0;
    let r1 = item1.rect;
    let r2 = item2.rect;
    assert(r1.spec_contains(r1.origin.x as int, r1.origin.y as int));
    assert(r2.spec_contains(r2.origin.x as int, r2.origin.y as int));
    // A point exactly one of the two rectangles covers: one rectangle's
    // origin. If each covered the other's origin, the origins would agree.
    let witness_first = !r2.spec_contains(r1.origin.x as int, r1.origin.y as int);
    if !witness_first && r1.spec_contains(r2.origin.x as int, r2.origin.y as int) {
        assert(r1.origin.x == r2.origin.x && r1.origin.y == r2.origin.y);
        assert(r1.origin == (crate::geom::Point { x: r1.origin.x, y: r1.origin.y }));
        assert(false);
    }
    let px = if witness_first { r1.origin.x as int } else { r2.origin.x as int };
    let py = if witness_first { r1.origin.y as int } else { r2.origin.y as int };
    let color_first = spec_pixel_at(seq![item1], store, background, px, py);
    let color_second = spec_pixel_at(seq![item2], store, background, px, py);
    assert(seq![item1].last() == item1);
    assert(seq![item2].last() == item2);
    assert(spec_pixel_at(seq![item1].drop_last(), store, background, px, py) == background);
    assert(spec_pixel_at(seq![item2].drop_last(), store, background, px, py) == background);
    assert(color_first == if r1.spec_contains(px, py) { c } else { background });
    assert(color_second == if r2.spec_contains(px, py) { c } else { background });
    assert(color_first != color_second);
    // A channel on which the image color and the background disagree.
    let ch: int = if c.r != background.r {
        0
    } else if c.g != background.g {
        1
    } else if c.b != background.b {
        2
    } else {
        3
    };
    if c.r == background.r && c.g == background.g && c.b == background.b && c.a == background.a {
        assert(c == (ColorU { r: c.r, g: c.g, b: c.b, a: c.a }));
        assert(background == (ColorU {
            r: background.r,
            g: background.g,
            b: background.b,
            a: background.a,
        }));
        assert(false);
    }
    assert(c.spec_channel(ch) != background.spec_channel(ch));
    // The witness pixel's byte for that channel differs between the captures.
    assert(rect.spec_contains(px, py));
    let row = py - rect.origin.y;
    let col = px - rect.origin.x;
    lemma_capture_byte(seq![item1], store, background, rect, row, col, ch);
    lemma_capture_byte(seq![item2], store, background, rect, row, col, ch);
    let i = (row * rect.size.width + col) * 4 + ch;
    assert(spec_capture_bytes(seq![item1], store, background, rect)[i] != spec_capture_bytes(
        seq![item2],
        store,
        background,
        rect,
    )[i]);
}

/// Compute the color of the pixel at device position `(x, y)`.
pub fn pixel_at(
    items: &Vec<ImageItem>,
    store: &Vec<ImageEntry>,
    background: ColorU,
    x: u32,
    y: u32,
) -> (c: ColorU)
    ensures
        c == spec_pixel_at(items@, store@, background, x as int, y as int),
{
    proof {
        assert(items@.subrange(0, items@.len() as int) =~= items@);
    }
    let mut i: usize = items.len();
    while i > 0
        invariant
            i <= items@.len(),
            spec_pixel_at(items@.subrange(0, i as int), store@, background, x as int, y as int)
                == spec_pixel_at(items@, store@, background, x as int, y as int),
        decreases i,
    {
        let item = items[i - 1];
        proof {
            assert(items@.subrange(0, i as int).last() == item);
            assert(items@.subrange(0, i as int).drop_last() =~= items@.subrange(0, i as int - 1));
        }
        if item.rect.contains(x, y) {
            match lookup(store, item.key) {
                Some(color) => {
                    return color;
                },
                None => {},
            }
        }
        i = i - 1;
    }
    background
}

/// Read back the pixels of `rect` as RGBA8 bytes, row-major, top-to-bottom.
pub fn rasterize(
    items: &Vec<ImageItem>,
    store: &Vec<ImageEntry>,
    background: ColorU,
    rect: Rect,
) -> (pixels: Vec<u8>)
    requires
        rect.spec_area() * 4 <= usize::MAX,
        rect.origin.x + rect.size.width <= u32::MAX,
        rect.origin.y + rect.size.height <= u32::MAX,
    ensures
        pixels@ == spec_capture_bytes(items@, store@, background, rect),
        pixels@.len() == rect.spec_area() * 4,
{
    let ghost full = spec_capture_bytes(items@, store@, background, rect);
    let w = rect.size.width;
    let h = rect.size.height;
    let mut pixels: Vec<u8> = Vec::new();
    let mut row: u32 = 0;
    while row < h
        invariant
            row <= h,
            w == rect.size.width,
            h == rect.size.height,
            rect.spec_area() * 4 <= usize::MAX,
            rect.origin.x + w <= u32::MAX,
            rect.origin.y + h <= u32::MAX,
            full == spec_capture_bytes(items@, store@, background, rect),
            pixels@.len() == row * w * 4,
            forall|j: int| 0 <= j < pixels@.len() ==> pixels@[j] == full[j],
        decreases h - row,
    {
        let mut col: u32 = 0;
        proof {
            assert(row * w * 4 == (row * w + 0) * 4);
        }
        while col < w
            invariant
                col <= w,
                row < h,
                w == rect.size.width,
                h == rect.size.height,
                rect.spec_area() * 4 <= usize::MAX,
                rect.origin.x + w <= u32::MAX,
                rect.origin.y + h <= u32::MAX,
                full == spec_capture_bytes(items@, store@, background, rect),
                pixels@.len() == (row * w + col) * 4,
                forall|j: int| 0 <= j < pixels@.len() ==> pixels@[j] == full[j],
            decreases w - col,
        {
            let x = rect.origin.x + col;
            let y = rect.origin.y + row;
            let c = pixel_at(items, store, background, x, y);
            proof {
                lemma_capture_byte(items@, store@, background, rect, row as int, col as int, 0);
                lemma_capture_byte(items@, store@, background, rect, row as int, col as int, 1);
                lemma_capture_byte(items@, store@, background, rect, row as int, col as int, 2);
                lemma_capture_byte(items@, store@, background, rect, row as int, col as int, 3);
            }
            pixels.push(c.r);
            pixels.push(c.g);
            pixels.push(c.b);
            pixels.push(c.a);
            proof {
                assert((row * w + (col + 1)) * 4 == (row * w + col) * 4 + 4);
            }
            col = col + 1;
        }
        proof {
            assert((row * w + w) * 4 == ((row + 1) * w) * 4) by (nonlinear_arith);
        }
        row = row + 1;
    }
    proof {
        assert(h * w * 4 == rect.spec_area() * 4) by (nonlinear_arith)
            requires
                w == rect.size.width,
                h == rect.size.height,
                rect.spec_area() == rect.size.width * rect.size.height,
        ;
        assert(pixels@ =~= full);
    }
    pixels
}

} // verus!
