//! The trusted boundary to the OpenH264 codec.
//!
//! The codec is an opaque service: nothing is assumed about the compressed
//! bytes it returns. The session logic around it is verified for every
//! possible outcome of these calls.

use openh264::encoder::Encoder as H264Encoder;
use openh264::Error as H264Error;
use vstd::prelude::*;

verus! {

/// The OpenH264 error type, carried opaquely inside the library's own
/// error enum.
#[verifier::external_type_specification]
#[verifier::external_body]
pub struct ExOpenH264Error(H264Error);

/// The OpenH264 encoder handle owned by a bound session.
#[verifier::external_type_specification]
#[verifier::external_body]
pub struct ExOpenH264Encoder(H264Encoder);

/// Relies on `openh264::encoder::Encoder::new`: builds a fresh H.264
/// encoder with default settings, or reports a codec error. Frame
/// dimensions are supplied later, with each encoded frame.
#[verifier::external_body]
pub(crate) fn codec_new() -> (r: Result<H264Encoder, H264Error>) {
    H264Encoder::new()
}

/// Relies on `openh264::encoder::Encoder::encode` (fed through
/// `RgbSliceU8` and `YUVBuffer::from_rgb8_source`, which convert the raw
/// RGB bytes into the codec's planar YUV input): compresses one frame and
/// returns the bitstream bytes, or reports a codec error. The bytes depend
/// on the codec's internal state, so nothing is assumed about them.
/// OpenH264 demands even, positive dimensions that match the buffer.
#[verifier::external_body]
pub(crate) fn encode_rgb(
    codec: &mut H264Encoder,
    rgb: &Vec<u8>,
    width: usize,
    height: usize,
) -> (r: Result<Vec<u8>, H264Error>)
    requires
        0 < width,
        0 < height,
        width % 2 == 0,
        height % 2 == 0,
        rgb@.len() == width * height * 3,
        width <= 0x7FFF_FFFF,
        height <= 0x7FFF_FFFF,
{
    let source = openh264::formats::RgbSliceU8::new(rgb.as_slice(), (width, height));
    let yuv = openh264::formats::YUVBuffer::from_rgb8_source(source);
    match codec.encode(&yuv) {
        Ok(bitstream) => Ok(bitstream.to_vec()),
        Err(e) => Err(e),
    }
}

} // verus!
