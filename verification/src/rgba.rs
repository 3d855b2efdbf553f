//! Quantized color samples and their layout as bytes.

use crate::canvas::Canvas;
use vstd::prelude::*;

verus! {

/// The alpha value that every packed sample gets: fully opaque.
pub const OPAQUE: u8 = 255;

/// A color quantized to eight bits for each channel.
#[derive(Clone, Copy, Debug, PartialEq, Eq, Structural)]
pub struct Rgb8 {
    /// The red channel.
    pub red: u8,
    /// The green channel.
    pub green: u8,
    /// The blue channel.
    pub blue: u8,
}

/// Byte `k` of the four bytes that stand for one sample: red, green, blue,
/// then the fixed alpha.
pub open spec fn rgba_channel(sample: Rgb8, k: int) -> u8 {
    if k == 0 {
        sample.red
    } else if k == 1 {
        sample.green
    } else if k == 2 {
        sample.blue
    } else {
        OPAQUE
    }
}

/// The samples as 8-bit RGBA: four bytes for each sample, in the order of
/// the samples.
pub open spec fn rgba_bytes(samples: Seq<Rgb8>) -> Seq<u8> {
    Seq::new(4 * samples.len(), |i: int| rgba_channel(samples[i / 4], i % 4))
}

/// The sample that the four bytes from `4 * i` on stand for, without its
/// alpha.
pub open spec fn sample_at(color_data: Seq<u8>, i: int) -> Rgb8 {
    Rgb8 { red: color_data[4 * i], green: color_data[4 * i + 1], blue: color_data[4 * i + 2] }
}

impl<P: Copy> Canvas<P> {
    /// Tone maps and serializes the canvas: every pixel is handed to
    /// `tone_map`, which quantizes it, and the samples are laid out as 8-bit
    /// RGBA in the order of the pixels, each with an alpha byte of 255. The
    /// work is done on a snapshot; the canvas is left as it is.
    pub fn encode<F: Fn(P) -> Rgb8>(&self, tone_map: F) -> (color_data: Vec<u8>)
        requires
            forall|i: int|
                0 <= i < self@.len() ==> call_requires(tone_map, (#[trigger] self@[i],)),
        ensures
            color_data@.len() == 4 * self@.len(),
            forall|i: int|
                0 <= i < self@.len() ==> call_ensures(
                    tone_map,
                    (self@[i],),
                    #[trigger] sample_at(color_data@, i),
                ) && color_data@[4 * i + 3] == OPAQUE,
    {
        let snapshot = self.map(tone_map);
        let color_data = snapshot.as_rgba32();
        proof {
            assert forall|i: int| 0 <= i < self@.len() implies call_ensures(
                tone_map,
                (self@[i],),
                #[trigger] sample_at(color_data@, i),
            ) && color_data@[4 * i + 3] == OPAQUE by {
                assert(sample_at(color_data@, i) == snapshot@[i]);
            }
        }
        color_data
    }
}

impl Canvas<Rgb8> {
    /// The pixels as 8-bit RGBA, row by row: for each pixel its red, green
    /// and blue bytes and an alpha byte of 255. The canvas is left as it is.
    pub fn as_rgba32(&self) -> (color_data: Vec<u8>)
        ensures
            color_data@ == rgba_bytes(self@),
            color_data@.len() == 4 * (self.width() * self.height()),
    {
        let pixels = self.pixels();
        let count: usize = pixels.len();
        let mut color_data: Vec<u8> = Vec::new();
        let mut packed: usize = 0;
        while packed < count
            invariant
                count == pixels@.len(),
                packed <= count,
                color_data@.len() == 4 * packed,
                forall|i: int|
                    0 <= i < 4 * packed ==> color_data@[i] == rgba_channel(pixels@[i / 4], i % 4),
            decreases count - packed,
        {
            let pixel = pixels[packed];
            color_data.push(pixel.red);
            color_data.push(pixel.green);
            color_data.push(pixel.blue);
            color_data.push(OPAQUE);
            packed = packed + 1;
        }
        assert(color_data@ =~= rgba_bytes(pixels@));
        color_data
    }
}

} // verus!
