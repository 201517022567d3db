use vstd::prelude::*;

use crate::codecs::{decode_rgba, decoded_rgba, decodes, exif_orientation_tag, lanczos3_resized, resize_lanczos3};
use crate::errors::CompressorError;
use crate::orientation::{apply_exif_rotation, code_of_tag, oriented, resolve_orientation};
use crate::pixels::{PixelBuffer, Raster};
use crate::resize::{plan_resize, planned_size, ResizeMode};

verus! {

/// The outcome of the geometric stage: the oriented raster, resized to the planned
/// dimensions unless they are the oriented dimensions already.
pub open spec fn prepared(o: Raster, mode: ResizeMode) -> Raster {
    let d = planned_size(o.width, o.height, mode);
    if d == (o.width, o.height) {
        o
    } else {
        Raster {
            width: d.0,
            height: d.1,
            channels: 4,
            data: lanczos3_resized(o.data, o.width, o.height, d.0, d.1),
        }
    }
}

/// Both dimensions are positive and the RGBA bytes of the image can be addressed.
pub open spec fn dims_in_range(w: nat, h: nat) -> bool {
    0 < w && 0 < h && w * h * 4 <= usize::MAX
}

/// The geometric stage succeeds when the oriented image and its planned size are both
/// in range.
pub open spec fn prepare_ok(o: Raster, mode: ResizeMode) -> bool {
    let d = planned_size(o.width, o.height, mode);
    dims_in_range(o.width, o.height) && dims_in_range(d.0, d.1)
}

/// The orientation code the pipeline corrects for: the image's own when `auto_rotate`
/// is set, identity otherwise.
pub open spec fn orientation_for(data: Seq<u8>, auto_rotate: bool) -> u32 {
    if auto_rotate { code_of_tag(exif_orientation_tag(data)) } else { 1 }
}

/// The pixels the pipeline hands to an encoder, or `None` when the bytes do not decode
/// or the geometric stage refuses the dimensions.
pub open spec fn loaded(data: Seq<u8>, mode: ResizeMode, auto_rotate: bool) -> Option<Raster> {
    let o = oriented(decoded_rgba(data), orientation_for(data, auto_rotate));
    if decodes(data) && prepare_ok(o, mode) { Some(prepared(o, mode)) } else { None }
}

fn check_dims(w: u32, h: u32) -> (r: bool)
    ensures
        r == dims_in_range(w as nat, h as nat),
{
    if w == 0 || h == 0 {
        return false;
    }
    assert((w as u64) * (h as u64) <= u32::MAX as u64 * u32::MAX as u64) by (nonlinear_arith)
        requires
            w <= u32::MAX,
            h <= u32::MAX,
    ;
    (w as u64) * (h as u64) <= (usize::MAX as u64) / 4
}

/// Decodes image bytes into RGBA pixels.
pub fn decode_image(data: &[u8]) -> (r: Result<PixelBuffer, CompressorError>)
    ensures
        r is Ok <==> decodes(data@),
        r matches Ok(b) ==> b.wf() && b.channels == 4 && b@ == decoded_rgba(data@),
        r matches Err(e) ==> e is DecodeError,
{
    match decode_rgba(data) {
        Ok(b) => Ok(b),
        Err(msg) => Err(CompressorError::DecodeError(msg)),
    }
}

/// Orients a decoded RGBA buffer and resizes it as `mode` plans.
///
/// Buffers with an empty axis, or too large to address before or after resizing, fail
/// with `EncodeError` before any codec sees them.
pub fn prepare_pixels(decoded: PixelBuffer, orientation: u32, mode: ResizeMode) -> (r: Result<PixelBuffer, CompressorError>)
    requires
        decoded.wf(),
        decoded.channels == 4,
    ensures
        ({
            let o = oriented(decoded@, orientation);
            match r {
                Ok(b) => prepare_ok(o, mode) && b.wf() && b.channels == 4 && b@ == prepared(o, mode),
                Err(e) => e is EncodeError && !prepare_ok(o, mode),
            }
        }),
{
    let img = apply_exif_rotation(decoded, orientation);
    if !check_dims(img.width, img.height) {
        return Err(CompressorError::EncodeError(String::from_str("image dimensions out of range")));
    }
    let (w, h) = plan_resize(img.width, img.height, mode);
    if !check_dims(w, h) {
        return Err(CompressorError::EncodeError(String::from_str("image dimensions out of range")));
    }
    if w == img.width && h == img.height {
        Ok(img)
    } else {
        Ok(resize_lanczos3(&img, w, h))
    }
}

/// Decodes, orients (when `auto_rotate` is set, from the image's own metadata; a failed
/// lookup means identity) and resizes.
pub fn load_pixels(data: &[u8], mode: ResizeMode, auto_rotate: bool) -> (r: Result<PixelBuffer, CompressorError>)
    ensures
        match r {
            Ok(b) => loaded(data@, mode, auto_rotate) == Some(b@) && b.wf() && b.channels == 4,
            Err(e) => loaded(data@, mode, auto_rotate) is None
                && (if decodes(data@) { e is EncodeError } else { e is DecodeError }),
        },
{
    let decoded = decode_image(data)?;
    let orientation = if auto_rotate { resolve_orientation(data) } else { 1 };
    prepare_pixels(decoded, orientation, mode)
}

} // verus!
