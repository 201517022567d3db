use vstd::prelude::*;

use crate::codecs::{decodes, encode_jpeg, jpeg_bytes};
use crate::errors::CompressorError;
use crate::format::{ends_with_jpeg_eoi, has_jpeg_signature};
use crate::pipeline::{dims_in_range, load_pixels, loaded};
use crate::pixels::{drop_alpha, without_alpha, PixelBuffer, Raster};
use crate::png::clamp_quality;
use crate::resize::{mode_of_name, ResizeMode};

verus! {

/// The largest width or height that a JPEG frame header can record.
pub const MAX_JPEG_DIMENSION: u32 = 65535;

/// The JPEG that prepared pixels encode to: their colour bytes with alpha dropped, at
/// the quality as given; `None` when an axis is too long for a JPEG frame.
pub open spec fn jpeg_output(r: Raster, quality: u8, progressive: bool) -> Option<Seq<u8>> {
    if r.width <= MAX_JPEG_DIMENSION && r.height <= MAX_JPEG_DIMENSION {
        Some(jpeg_bytes(without_alpha(r).data, r.width, r.height, quality, progressive))
    } else {
        None
    }
}

/// The JPEG that `compress_jpeg` returns, or `None` when it fails.
pub open spec fn jpeg_compressed(data: Seq<u8>, quality: u8, progressive: bool, mode: ResizeMode, auto_rotate: bool) -> Option<Seq<u8>> {
    match loaded(data, mode, auto_rotate) {
        Some(p) => jpeg_output(p, clamp_quality(quality), progressive),
        None => None,
    }
}

/// Encodes prepared RGBA pixels as JPEG: alpha is dropped, not composited, and the
/// quality goes to the encoder as it is.
pub fn encode_jpeg_pixels(buf: &PixelBuffer, quality: u8, progressive: bool) -> (r: Result<Vec<u8>, CompressorError>)
    requires
        buf.wf(),
        buf.channels == 4,
        dims_in_range(buf.width as nat, buf.height as nat),
    ensures
        match r {
            Ok(out) => jpeg_output(buf@, quality, progressive) == Some(out@) && has_jpeg_signature(out@)
                && ends_with_jpeg_eoi(out@),
            Err(e) => jpeg_output(buf@, quality, progressive) is None && e is EncodeError,
        },
{
    if buf.width > MAX_JPEG_DIMENSION || buf.height > MAX_JPEG_DIMENSION {
        return Err(CompressorError::EncodeError(String::from_str("image too large for JPEG")));
    }
    let rgb = drop_alpha(buf);
    match encode_jpeg(&rgb.data, buf.width as u16, buf.height as u16, quality, progressive) {
        Ok(out) => Ok(out),
        Err(msg) => Err(CompressorError::EncodeError(msg)),
    }
}

/// Recompresses image bytes as JPEG.
///
/// Qualities above 100 count as 100. `auto_rotate` corrects for the orientation
/// recorded in the image's metadata. The output is the encoder's over the pixels
/// alone, so it never carries metadata, whatever `strip_exif` asks.
pub fn compress_jpeg(
    data: &[u8],
    quality: u8,
    progressive: bool,
    resize_mode: &str,
    resize_value: u32,
    auto_rotate: bool,
    strip_exif: bool,
) -> (r: Result<Vec<u8>, CompressorError>)
    ensures
        ({
            let expected = jpeg_compressed(data@, quality, progressive, mode_of_name(resize_mode@, resize_value), auto_rotate);
            match r {
                Ok(out) => expected == Some(out@) && has_jpeg_signature(out@) && ends_with_jpeg_eoi(out@),
                Err(e) => expected is None && if decodes(data@) { e is EncodeError } else { e is DecodeError },
            }
        }),
{
    let quality = if quality > 100 { 100 } else { quality };
    let pixels = load_pixels(data, ResizeMode::parse(resize_mode, resize_value), auto_rotate)?;
    encode_jpeg_pixels(&pixels, quality, progressive)
}

} // verus!
