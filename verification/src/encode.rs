//! Encoding a quantized canvas as a PNG file, held in memory.

use crate::canvas::Canvas;
use crate::rgba::{rgba_bytes, Rgb8};
use vstd::prelude::*;

verus! {

/// The error type of the `png` crate's encoder. Nothing is known of a value
/// of it here; it is carried to the caller as the cause.
#[verifier::external_type_specification]
#[verifier::external_body]
pub struct ExEncodingError(png::EncodingError);

/// Why a canvas could not be encoded.
#[derive(Debug)]
pub enum EncodeError {
    /// The canvas has no columns; an image file needs at least one.
    ZeroWidth,
    /// The canvas has no rows; an image file needs at least one.
    ZeroHeight,
    /// The canvas has `WIDTH_LIMIT` columns or more, or more rows than the
    /// 32 bits that the file format gives the height can count.
    TooLarge,
    /// The encoder gave up, for the cause it names. By what is believed of
    /// the encoder this does not happen to a canvas that is handed to it; if
    /// it happens all the same, the cause is passed on rather than hidden.
    Encoder(png::EncodingError),
}

/// The first width that is not encoded. The encoder counts the bytes of
/// one row, `4 * width + 1` of them, in 32 bits; below this limit the count
/// fits.
pub const WIDTH_LIMIT: u32 = 0x4000_0000;

/// The length of what a PNG file starts with: the signature and the header
/// chunk up to its checksum.
pub const HEADER_LENGTH: usize = 29;

/// Byte `k` of the four bytes of `n`, counted from the most significant.
pub open spec fn be_byte(n: u32, k: int) -> u8 {
    if k == 0 {
        (n / 0x100_0000) as u8
    } else if k == 1 {
        (n / 0x1_0000 % 0x100) as u8
    } else if k == 2 {
        (n / 0x100 % 0x100) as u8
    } else {
        (n % 0x100) as u8
    }
}

/// What a PNG file of 8-bit RGBA of the given size starts with: the eight
/// bytes of the signature; the header chunk's length, 13, and its name,
/// `IHDR`; width and height, most significant byte first; the bit depth, 8,
/// and the color type, 6 for RGBA; compression method, filter method and
/// interlacing, all 0.
pub open spec fn png_header(width: u32, height: u32) -> Seq<u8> {
    seq![
        137u8,
        80,
        78,
        71,
        13,
        10,
        26,
        10,
        0,
        0,
        0,
        13,
        73,
        72,
        68,
        82,
        be_byte(width, 0),
        be_byte(width, 1),
        be_byte(width, 2),
        be_byte(width, 3),
        be_byte(height, 0),
        be_byte(height, 1),
        be_byte(height, 2),
        be_byte(height, 3),
        8,
        6,
        0,
        0,
        0,
    ]
}

/// Whether `file` starts with the header of an 8-bit RGBA image of the given
/// size.
pub open spec fn starts_with_header(file: Seq<u8>, width: u32, height: u32) -> bool {
    file.len() >= HEADER_LENGTH && forall|i: int|
        0 <= i < HEADER_LENGTH ==> #[trigger] file[i] == png_header(width, height)[i]
}

/// The bytes of the PNG file that the `png` crate's encoder, as this crate
/// sets it up (RGBA color, eight bits for each channel, every other setting
/// as the encoder starts with), writes for an image of the given size and
/// samples.
pub uninterp spec fn png_rgba8(width: u32, height: u32, rgba: Seq<u8>) -> Seq<u8>;

/// Calls the `png` crate: `Encoder::new` on an empty byte vector, `set_color`
/// with `ColorType::Rgba`, `set_depth` with `BitDepth::Eight`, `write_header`,
/// `Writer::write_image_data` and `Writer::finish`.
///
/// Believed, not proved:
/// - The call succeeds. Writing into a byte vector, the encoder refuses only
///   an empty dimension, a bit depth that does not go with the color type,
///   and a sample buffer of the wrong length; the preconditions leave the
///   first and the last out, and eight bits go with RGBA. It cuts the
///   compressed data into chunks that never exceed the length a chunk may
///   have.
/// - What it writes is a function of the size and the samples alone, so that
///   the file is `png_rgba8` of them.
/// - The file starts with the signature and the header chunk, which holds
///   the size, the depth and the color type as `png_header` lays them out.
///
/// The bound on the width keeps the `4 * width + 1` bytes of a row, which the
/// compressor behind the encoder counts in 32 bits, from overflowing that
/// count; the length of the buffer keeps the encoder's own products of the
/// dimensions within `usize`.
#[verifier::external_body]
fn png_encode_rgba8(width: u32, height: u32, rgba: &Vec<u8>) -> (outcome: Result<
    Vec<u8>,
    png::EncodingError,
>)
    requires
        0 < width < WIDTH_LIMIT,
        height > 0,
        rgba@.len() == 4 * (width * height),
    ensures
        outcome is Ok,
        outcome matches Ok(file) ==> file@ == png_rgba8(width, height, rgba@),
        outcome matches Ok(file) ==> starts_with_header(file@, width, height),
{
    let mut file: Vec<u8> = Vec::new();
    let mut encoder = png::Encoder::new(&mut file, width, height);
    encoder.set_color(png::ColorType::Rgba);
    encoder.set_depth(png::BitDepth::Eight);
    let mut writer = encoder.write_header()?;
    writer.write_image_data(rgba)?;
    writer.finish()?;
    Ok(file)
}

impl EncodeError {
    /// The error that a canvas of the given size gets, if any: a dimension
    /// too large first, then an empty one, the width before the height.
    pub open spec fn for_size(width: usize, height: usize) -> Option<EncodeError> {
        if width >= WIDTH_LIMIT || height > u32::MAX {
            Some(EncodeError::TooLarge)
        } else if width == 0 {
            Some(EncodeError::ZeroWidth)
        } else if height == 0 {
            Some(EncodeError::ZeroHeight)
        } else {
            None
        }
    }

    /// What went wrong, in words, for a report to a person.
    pub fn message(&self) -> (text: &'static str)
        ensures
            text@ == match self {
                EncodeError::ZeroWidth => "Cannot encode an image of zero width."@,
                EncodeError::ZeroHeight => "Cannot encode an image of zero height."@,
                EncodeError::TooLarge => "Cannot encode an image this large."@,
                EncodeError::Encoder(_) => "The PNG encoder failed."@,
            },
    {
        match self {
            EncodeError::ZeroWidth => "Cannot encode an image of zero width.",
            EncodeError::ZeroHeight => "Cannot encode an image of zero height.",
            EncodeError::TooLarge => "Cannot encode an image this large.",
            EncodeError::Encoder(_) => "The PNG encoder failed.",
        }
    }
}

/// What encoding returns once the encoder has answered: the file, or the
/// encoder's error as the cause.
pub fn encoder_outcome(outcome: Result<Vec<u8>, png::EncodingError>) -> (result: Result<
    Vec<u8>,
    EncodeError,
>)
    ensures
        result == match outcome {
            Ok(file) => Ok::<Vec<u8>, EncodeError>(file),
            Err(cause) => Err::<Vec<u8>, EncodeError>(EncodeError::Encoder(cause)),
        },
{
    match outcome {
        Ok(file) => Ok(file),
        Err(cause) => Err(EncodeError::Encoder(cause)),
    }
}

impl Canvas<Rgb8> {
    /// The PNG file that stands for this canvas: what the encoder writes
    /// for its size and for its pixels as 8-bit RGBA, row by row.
    pub open spec fn png_file(&self) -> Seq<u8> {
        png_rgba8(self.width() as u32, self.height() as u32, rgba_bytes(self@))
    }

    /// The canvas as a PNG file of 8-bit RGBA, in memory. The canvas is left
    /// as it is.
    ///
    /// An oversized or empty canvas is refused without a call of the
    /// encoder. Every other canvas is handed to it, as the size and
    /// `as_rgba32` of the pixels, and gets its file: `png_file` of the
    /// canvas, which starts with the header of an 8-bit RGBA image of the
    /// canvas's size.
    pub fn write_png_data(&self) -> (result: Result<Vec<u8>, EncodeError>)
        ensures
            match EncodeError::for_size(self.width(), self.height()) {
                Some(refusal) => result == Err::<Vec<u8>, EncodeError>(refusal),
                None => result matches Ok(file) && file@ == self.png_file() && starts_with_header(
                    file@,
                    self.width() as u32,
                    self.height() as u32,
                ),
            },
    {
        let width = self.width();
        let height = self.height();
        if width >= WIDTH_LIMIT as usize || height > u32::MAX as usize {
            return Err(EncodeError::TooLarge);
        }
        if width == 0 {
            return Err(EncodeError::ZeroWidth);
        }
        if height == 0 {
            return Err(EncodeError::ZeroHeight);
        }
        let color_data = self.as_rgba32();
        encoder_outcome(png_encode_rgba8(width as u32, height as u32, &color_data))
    }
}

/// Encoding is repeatable: two canvases of the same size with the same
/// pixels stand for the same file, byte for byte. `write_png_data` returns
/// that file for every canvas that is neither empty nor too large, so two
/// encodings of one canvas are equal.
pub proof fn lemma_equal_canvases_encode_alike(first: Canvas<Rgb8>, second: Canvas<Rgb8>)
    requires
        first.width() == second.width(),
        first.height() == second.height(),
        first@ == second@,
    ensures
        first.png_file() == second.png_file(),
{
}

} // verus!
