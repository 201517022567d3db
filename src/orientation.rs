use vstd::prelude::*;

use crate::codecs::{exif_orientation_tag, read_orientation_tag, OrientationTag};
use crate::errors::CompressorError;
use crate::pixels::{
    lemma_flips_cancel, lemma_quarter_turns_cancel, transform, transformed, PixelBuffer, Raster,
    Transform,
};

verus! {

/// The orientation code that a metadata lookup resolves to: the tag's value when it is
/// one of the eight codes, identity (1) in every other case.
pub open spec fn code_of_tag(tag: OrientationTag) -> u32 {
    match tag {
        OrientationTag::Tagged(Some(v)) => if 1 <= v <= 8 { v } else { 1 },
        _ => 1,
    }
}

/// The raster corrected for an orientation code; unknown codes leave it as it is.
pub open spec fn oriented(r: Raster, code: u32) -> Raster {
    match code {
        2 => transformed(r, Transform::FlipHorizontal),
        3 => transformed(r, Transform::Rotate180),
        4 => transformed(r, Transform::FlipVertical),
        5 => transformed(transformed(r, Transform::FlipVertical), Transform::Rotate90),
        6 => transformed(r, Transform::Rotate90),
        7 => transformed(transformed(r, Transform::FlipHorizontal), Transform::Rotate90),
        8 => transformed(r, Transform::Rotate270),
        _ => r,
    }
}

/// Reads the orientation tag of an image's metadata.
///
/// Fails with `ExifError` when there is no readable metadata or it has no orientation
/// tag; a tag whose value is not an unsigned integer reads as 1.
pub fn get_exif_orientation(data: &[u8]) -> (r: Result<u32, CompressorError>)
    ensures
        match exif_orientation_tag(data@) {
            OrientationTag::Tagged(Some(v)) => r == Ok::<u32, CompressorError>(v),
            OrientationTag::Tagged(None) => r == Ok::<u32, CompressorError>(1),
            _ => r is Err && r->Err_0 is ExifError,
        },
{
    match read_orientation_tag(data) {
        OrientationTag::Unreadable => Err(CompressorError::ExifError(String::from_str("No readable EXIF data"))),
        OrientationTag::Missing => Err(CompressorError::ExifError(String::from_str("No orientation tag found"))),
        OrientationTag::Tagged(Some(v)) => Ok(v),
        OrientationTag::Tagged(None) => Ok(1),
    }
}

/// Whether the image carries readable metadata.
pub fn has_exif(data: &[u8]) -> (r: bool)
    ensures
        r == !(exif_orientation_tag(data@) is Unreadable),
{
    match read_orientation_tag(data) {
        OrientationTag::Unreadable => false,
        _ => true,
    }
}

/// Resolves a metadata lookup to an orientation code; anything but a valid code is identity.
pub fn orientation_code(tag: OrientationTag) -> (r: u32)
    ensures
        r == code_of_tag(tag),
        1 <= r <= 8,
{
    match tag {
        OrientationTag::Tagged(Some(v)) => if 1 <= v && v <= 8 { v } else { 1 },
        _ => 1,
    }
}

/// The orientation code of an image; never fails.
pub fn resolve_orientation(data: &[u8]) -> (r: u32)
    ensures
        r == code_of_tag(exif_orientation_tag(data@)),
{
    orientation_code(read_orientation_tag(data))
}

/// Corrects a buffer for an orientation code.
pub fn apply_exif_rotation(image: PixelBuffer, orientation: u32) -> (r: PixelBuffer)
    requires
        image.wf(),
    ensures
        r.wf(),
        r@ == oriented(image@, orientation),
{
    match orientation {
        2 => transform(&image, Transform::FlipHorizontal),
        3 => transform(&image, Transform::Rotate180),
        4 => transform(&image, Transform::FlipVertical),
        5 => transform(&transform(&image, Transform::FlipVertical), Transform::Rotate90),
        6 => transform(&image, Transform::Rotate90),
        7 => transform(&transform(&image, Transform::FlipHorizontal), Transform::Rotate90),
        8 => transform(&image, Transform::Rotate270),
        _ => image,
    }
}

/// Correcting twice for a flip or a half turn (codes 2, 3 and 4) gives back the original.
pub proof fn lemma_orientation_involution(r: Raster, code: u32)
    requires
        r.wf(),
        2 <= code <= 4,
    ensures
        oriented(oriented(r, code), code) == r,
{
    match code {
        2 => lemma_flips_cancel(r, Transform::FlipHorizontal),
        3 => lemma_flips_cancel(r, Transform::Rotate180),
        _ => lemma_flips_cancel(r, Transform::FlipVertical),
    }
}

/// A quarter turn (code 6) followed by a three-quarter turn (code 8) gives back the
/// original, and so does the reverse order.
pub proof fn lemma_quarter_turns_compose(r: Raster)
    requires
        r.wf(),
    ensures
        oriented(oriented(r, 6), 8) == r,
        oriented(oriented(r, 8), 6) == r,
{
    lemma_quarter_turns_cancel(r);
}

} // verus!
