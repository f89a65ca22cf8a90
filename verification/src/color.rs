//! Colors and the blob-image payload codec.
//!
//! A blob image is an image whose pixel content comes from an external
//! rasterizer rather than an image file. The harness only ever registers
//! solid-color blobs, so a payload is the four channel bytes of one color.

use vstd::prelude::*;

verus! {

/// An 8-bit RGBA color.
#[derive(Clone, Copy, Debug, PartialEq, Eq, Structural)]
pub struct ColorU {
    pub r: u8,
    pub g: u8,
    pub b: u8,
    pub a: u8,
}

impl ColorU {
    pub fn new(r: u8, g: u8, b: u8, a: u8) -> (c: ColorU)
        ensures
            c == (ColorU { r, g, b, a }),
    {
        ColorU { r, g, b, a }
    }

    /// Channel `ch` of the color in readback order: red, green, blue, alpha.
    pub open spec fn spec_channel(self, ch: int) -> u8 {
        if ch == 0 {
            self.r
        } else if ch == 1 {
            self.g
        } else if ch == 2 {
            self.b
        } else {
            self.a
        }
    }
}

/// The byte sequence that encodes a solid color as a blob payload.
pub open spec fn spec_serialize_blob(color: ColorU) -> Seq<u8> {
    seq![color.r, color.g, color.b, color.a]
}

/// The color a blob payload encodes, or `None` if the payload is malformed
/// (a solid-color payload is exactly four bytes).
pub open spec fn spec_deserialize_blob(data: Seq<u8>) -> Option<ColorU> {
    if data.len() == 4 {
        Some(ColorU { r: data[0], g: data[1], b: data[2], a: data[3] })
    } else {
        None
    }
}

/// Encode a solid color as a deterministic blob payload.
pub fn serialize_blob(color: ColorU) -> (data: Vec<u8>)
    ensures
        data@ == spec_serialize_blob(color),
{
    let mut data: Vec<u8> = Vec::new();
    data.push(color.r);
    data.push(color.g);
    data.push(color.b);
    data.push(color.a);
    proof {
        assert(data@ =~= spec_serialize_blob(color));
    }
    data
}

/// Decode a blob payload back into its solid color.
pub fn deserialize_blob(data: &Vec<u8>) -> (color: Option<ColorU>)
    ensures
        color == spec_deserialize_blob(data@),
{
    if data.len() == 4 {
        Some(ColorU { r: data[0], g: data[1], b: data[2], a: data[3] })
    } else {
        None
    }
}

/// Decoding inverts encoding: every solid color survives a round trip
/// through the blob payload format.
pub proof fn lemma_blob_round_trip(color: ColorU)
    ensures
        spec_deserialize_blob(spec_serialize_blob(color)) == Some(color),
{
}

} // verus!
