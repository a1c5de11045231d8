//! Raw frames, their encoding as PNG images, and the names of frame files.

use vstd::prelude::*;
use crate::text::{push_zero_padded, zero_padded};

verus! {

/// Bytes per pixel of a raw frame: red, green, blue.
pub const BYTES_PER_PIXEL: u64 = 3;

/// Digits of the zero-padded index in a frame file name.
pub const INDEX_WIDTH: usize = 5;

/// A raw frame: `width * height` pixels, three bytes each, row by row.
#[derive(Clone, Debug)]
pub struct RawFrame {
    pub width: u32,
    pub height: u32,
    pub pixels: Vec<u8>,
}

/// A frame encoded as a PNG image, ready to be written.
#[derive(Clone, Debug)]
pub struct EncodedImage {
    pub width: u32,
    pub height: u32,
    pub png: Vec<u8>,
}

/// Why a raw frame could not be encoded.
#[derive(Clone, Copy, Debug, PartialEq, Eq, Structural)]
pub enum EncodeError {
    /// The pixel buffer does not hold `width * height * 3` bytes.
    LengthMismatch,
    /// The PNG encoder refused the image.
    EncoderFailed,
}

/// The PNG file that the `png` crate produces for an 8-bit RGB image of the
/// given size and pixel bytes.
pub uninterp spec fn png_rgb8_of(width: u32, height: u32, pixels: Seq<u8>) -> Seq<u8>;

/// Relies on png 0.17's `Encoder` with `ColorType::Rgb` and `BitDepth::Eight`
/// writing into a `Vec`: `write_header` refuses only a zero width or height,
/// `write_image_data` only a buffer whose length is not `width * height * 3`
/// (checked here before the call), and `finish` only a failed write, which a
/// `Vec` never gives. The encoded bytes depend on the dimensions and pixels
/// alone.
#[verifier::external_body]
fn encode_png_rgb8(width: u32, height: u32, pixels: &[u8]) -> (r: Option<Vec<u8>>)
    requires
        pixels@.len() == width as int * height as int * 3,
    ensures
        r matches Some(b) ==> b@ == png_rgb8_of(width, height, pixels@),
        (r is None) <==> (width == 0 || height == 0),
{
    let mut out: Vec<u8> = Vec::new();
    let mut encoder = png::Encoder::new(&mut out, width, height);
    encoder.set_color(png::ColorType::Rgb);
    encoder.set_depth(png::BitDepth::Eight);
    let mut writer = encoder.write_header().ok()?;
    writer.write_image_data(pixels).ok()?;
    writer.finish().ok()?;
    Some(out)
}

/// Number of bytes a well-formed raw frame of this size holds.
pub open spec fn expected_len(width: u32, height: u32) -> int {
    width * height * BYTES_PER_PIXEL
}

/// Whether the buffer length matches the frame's dimensions.
pub fn is_well_formed(frame: &RawFrame) -> (r: bool)
    ensures
        r == (frame.pixels@.len() == expected_len(frame.width, frame.height)),
{
    let w = frame.width as u128;
    let h = frame.height as u128;
    assert(w * h < 0x1_0000_0000_0000_0000u128) by (nonlinear_arith)
        requires
            w <= 0xffff_ffffu128,
            h <= 0xffff_ffffu128,
    ;
    let area: u128 = w * h;
    let expected: u128 = area * 3;
    assert(expected == expected_len(frame.width, frame.height));
    frame.pixels.len() as u128 == expected
}

/// Encodes a raw frame as a PNG image.
///
/// A frame whose buffer does not match its dimensions is refused with
/// `LengthMismatch`, and a frame with a zero width or height with
/// `EncoderFailed`; any other frame is encoded.
pub fn encode(frame: &RawFrame) -> (r: Result<EncodedImage, EncodeError>)
    ensures
        (r == Err::<EncodedImage, EncodeError>(EncodeError::LengthMismatch)) <==> frame.pixels@.len()
            != expected_len(frame.width, frame.height),
        r matches Ok(img) ==> {
            &&& img.width == frame.width
            &&& img.height == frame.height
            &&& img.png@ == png_rgb8_of(frame.width, frame.height, frame.pixels@)
        },
        frame.pixels@.len() == expected_len(frame.width, frame.height) && (frame.width == 0
            || frame.height == 0) ==> r == Err::<EncodedImage, EncodeError>(
            EncodeError::EncoderFailed,
        ),
        frame.pixels@.len() == expected_len(frame.width, frame.height) && frame.width > 0
            && frame.height > 0 ==> r is Ok,
{
    if !is_well_formed(frame) {
        return Err(EncodeError::LengthMismatch);
    }
    match encode_png_rgb8(frame.width, frame.height, frame.pixels.as_slice()) {
        Some(png) => Ok(EncodedImage { width: frame.width, height: frame.height, png }),
        None => Err(EncodeError::EncoderFailed),
    }
}

/// The name of the file that holds frame `index`: `frame_` followed by the
/// index zero-padded to five digits, then `.png`.
pub open spec fn frame_name(index: nat) -> Seq<char> {
    seq!['f', 'r', 'a', 'm', 'e', '_'] + zero_padded(index, INDEX_WIDTH as nat) + seq![
        '.',
        'p',
        'n',
        'g',
    ]
}

/// The file name of frame `index` within the output directory.
pub fn frame_file_name(index: u64) -> (r: String)
    ensures
        r@ == frame_name(index as nat),
{
    let mut name = String::from_str("frame_");
    push_zero_padded(&mut name, index, INDEX_WIDTH);
    name.append(".png");
    proof {
        reveal_strlit("frame_");
        reveal_strlit(".png");
    }
    assert(name@ =~= frame_name(index as nat));
    name
}

} // verus!
