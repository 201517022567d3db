use imagequant::RGBA;
use vstd::prelude::*;

use crate::format::{ends_with_jpeg_eoi, has_jpeg_signature, has_png_signature};
use crate::pixels::{PixelBuffer, Raster, Rgba};

verus! {

/// What a lookup of the orientation tag in an image's metadata found.
#[derive(Debug, Clone, Copy, PartialEq, Eq, Structural)]
pub enum OrientationTag {
    /// No metadata container could be read from the bytes.
    Unreadable,
    /// Metadata was read but holds no orientation tag.
    Missing,
    /// The tag's first value, when it is an unsigned integer.
    Tagged(Option<u32>),
}

/// What kamadak-exif finds as the orientation tag of an image's primary metadata.
pub uninterp spec fn exif_orientation_tag(data: Seq<u8>) -> OrientationTag;

/// Relies on `exif::Reader::read_from_container`, `Exif::get_field` and `Value::get_uint`:
/// the lookup reads only the given bytes.
#[verifier::external_body]
pub(crate) fn read_orientation_tag(data: &[u8]) -> (r: OrientationTag)
    ensures
        r == exif_orientation_tag(data@),
{
    match ::exif::Reader::new().read_from_container(&mut std::io::Cursor::new(data)) {
        Err(_) => OrientationTag::Unreadable,
        Ok(found) => match found.get_field(::exif::Tag::Orientation, ::exif::In::PRIMARY) {
            None => OrientationTag::Missing,
            Some(field) => OrientationTag::Tagged(field.value.get_uint(0)),
        },
    }
}

/// The pixels that a Lanczos (three-lobe) resampling of a `w` by `h` RGBA image to
/// `nw` by `nh` produces.
pub uninterp spec fn lanczos3_resized(data: Seq<u8>, w: nat, h: nat, nw: nat, nh: nat) -> Seq<u8>;

/// Whether `image::load_from_memory` reads the bytes as an image.
pub uninterp spec fn decodes(data: Seq<u8>) -> bool;

/// The RGBA raster that `image` decodes from the bytes.
pub uninterp spec fn decoded_rgba(data: Seq<u8>) -> Raster;

/// Relies on `image::load_from_memory` and `DynamicImage::to_rgba8`: the outcome depends
/// on the bytes alone, and an image buffer holds four bytes for each of its
/// `width * height` pixels.
#[verifier::external_body]
pub(crate) fn decode_rgba(data: &[u8]) -> (r: Result<PixelBuffer, String>)
    ensures
        r is Ok <==> decodes(data@),
        r matches Ok(b) ==> b.wf() && b.channels == 4 && b@ == decoded_rgba(data@),
{
    match ::image::load_from_memory(data) {
        Ok(img) => {
            let rgba = img.to_rgba8();
            Ok(PixelBuffer { width: rgba.width(), height: rgba.height(), channels: 4, data: rgba.into_raw() })
        },
        Err(e) => Err(e.to_string()),
    }
}

/// Relies on `image::imageops::resize` with `FilterType::Lanczos3`: the result has
/// exactly the requested dimensions.
#[verifier::external_body]
pub(crate) fn resize_lanczos3(buf: &PixelBuffer, width: u32, height: u32) -> (r: PixelBuffer)
    requires
        buf.wf(),
        buf.channels == 4,
        width as nat * height as nat * 4 <= usize::MAX,
    ensures
        r.wf(),
        r.channels == 4,
        r.width == width,
        r.height == height,
        r.data@ == lanczos3_resized(buf.data@, buf.width as nat, buf.height as nat, width as nat, height as nat),
{
    let src = ::image::RgbaImage::from_raw(buf.width, buf.height, buf.data.clone()).unwrap();
    let out = ::image::imageops::resize(&src, width, height, ::image::imageops::FilterType::Lanczos3);
    PixelBuffer { width: out.width(), height: out.height(), channels: 4, data: out.into_raw() }
}

/// The palette and per-pixel indices that imagequant (built without threads) produces
/// for RGBA pixels with the given quality band, speed and dithering, or `None` when it
/// fails.
pub uninterp spec fn quantized(rgba: Seq<u8>, width: nat, height: nat, minimum: u8, target: u8, speed: i32, dithering: bool) -> Option<(Seq<Rgba>, Seq<u8>)>;

/// Relies on imagequant: `new`, `Attributes::set_quality` (accepts
/// `minimum <= target <= 100`), `set_speed` (accepts 1 to 10), `new_image` (default
/// gamma zero means sRGB), `quantize`, `set_dithering_level` (1 for full, 0 for none)
/// and `remapped`, which without `large_palettes` gives at most 256 colours and one
/// index byte for each of the `width * height` pixels.
#[verifier::external_body]
pub(crate) fn quantize_rgba(rgba: &Vec<u8>, width: usize, height: usize, minimum: u8, target: u8, speed: i32, dithering: bool) -> (r: Result<(Vec<Rgba>, Vec<u8>), imagequant::Error>)
    ensures
        r is Ok <==> quantized(rgba@, width as nat, height as nat, minimum, target, speed, dithering) is Some,
        r matches Ok(p) ==> Some((p.0@, p.1@)) == quantized(rgba@, width as nat, height as nat, minimum, target, speed, dithering),
        r matches Ok(p) ==> p.0@.len() <= 256 && p.1@.len() == width * height,
        !(minimum <= target && target <= 100 && 1 <= speed && speed <= 10) ==> r is Err,
{
    let mut attr = imagequant::new();
    attr.set_quality(minimum, target)?;
    attr.set_speed(speed)?;
    let pixels = rgba.chunks_exact(4).map(|p| RGBA::new(p[0], p[1], p[2], p[3])).collect::<Vec<_>>();
    let mut img = attr.new_image(pixels, width, height, Default::default())?;
    let mut res = attr.quantize(&mut img)?;
    res.set_dithering_level((dithering as u8).into())?;
    let (pal, idx) = res.remapped(&mut img)?;
    Ok((pal.iter().map(|c| Rgba { r: c.r, g: c.g, b: c.b, a: c.a }).collect(), idx))
}

#[verifier::external_type_specification]
#[verifier::external_body]
pub struct ExQuantError(imagequant::Error);

/// Relies on `Display` for `imagequant::Error`: a message for the failure.
#[verifier::external_body]
pub(crate) fn quantize_error_text(e: &imagequant::Error) -> String {
    e.to_string()
}

/// The contents of optional bytes.
pub open spec fn bytes_view(o: Option<Vec<u8>>) -> Option<Seq<u8>> {
    match o {
        Some(v) => Some(v@),
        None => None,
    }
}

/// The bytes that the png crate writes for an 8-bit indexed image with these PLTE and
/// tRNS chunk contents and index bytes.
pub uninterp spec fn png_indexed_bytes(width: nat, height: nat, plte: Seq<u8>, trns: Option<Seq<u8>>, indices: Seq<u8>) -> Seq<u8>;

/// Relies on `png::Encoder` writing an 8-bit indexed image into a `Vec`: the signature
/// comes first; it fails only on a zero dimension or an index count other than
/// `width * height`. The pixel count must be addressable, as the crate computes it in
/// `usize`.
#[verifier::external_body]
pub(crate) fn write_indexed_png(width: u32, height: u32, plte: Vec<u8>, trns: Option<Vec<u8>>, indices: &Vec<u8>) -> (r: Result<Vec<u8>, String>)
    requires
        width as nat * height as nat <= usize::MAX,
    ensures
        r is Ok <==> (width > 0 && height > 0 && indices@.len() == width as nat * height as nat),
        r matches Ok(out) ==> has_png_signature(out@)
            && out@ == png_indexed_bytes(width as nat, height as nat, plte@, bytes_view(trns), indices@),
{
    let mut out: Vec<u8> = Vec::new();
    let mut enc = ::png::Encoder::new(&mut out, width, height);
    enc.set_color(::png::ColorType::Indexed);
    enc.set_depth(::png::BitDepth::Eight);
    enc.set_palette(plte);
    if let Some(t) = trns { enc.set_trns(t); }
    let written = match enc.write_header() { Ok(mut w) => w.write_image_data(indices).and_then(|_| w.finish()), Err(e) => Err(e) };
    match written { Ok(()) => Ok(out), Err(e) => Err(e.to_string()) }
}

/// The bytes that the png crate writes for an 8-bit RGBA image.
pub uninterp spec fn png_rgba_bytes(width: nat, height: nat, data: Seq<u8>) -> Seq<u8>;

/// Relies on `png::Encoder` writing an 8-bit RGBA image into a `Vec`: the signature comes
/// first; it fails only on a zero dimension or a byte count other than
/// `width * height * 4`. The byte count must be addressable, as the crate computes it in
/// `usize`.
#[verifier::external_body]
pub(crate) fn write_rgba_png(width: u32, height: u32, data: &Vec<u8>) -> (r: Result<Vec<u8>, String>)
    requires
        width as nat * height as nat * 4 <= usize::MAX,
    ensures
        r is Ok <==> (width > 0 && height > 0 && data@.len() == width as nat * height as nat * 4),
        r matches Ok(out) ==> has_png_signature(out@) && out@ == png_rgba_bytes(width as nat, height as nat, data@),
{
    let mut out: Vec<u8> = Vec::new();
    let mut enc = ::png::Encoder::new(&mut out, width, height);
    enc.set_color(::png::ColorType::Rgba);
    enc.set_depth(::png::BitDepth::Eight);
    let written = match enc.write_header() { Ok(mut w) => w.write_image_data(data).and_then(|_| w.finish()), Err(e) => Err(e) };
    match written { Ok(()) => Ok(out), Err(e) => Err(e.to_string()) }
}

/// The bytes that jpeg-encoder writes for RGB pixels at a quality, in progressive or
/// baseline mode.
pub uninterp spec fn jpeg_bytes(rgb: Seq<u8>, width: nat, height: nat, quality: u8, progressive: bool) -> Seq<u8>;

/// Relies on `jpeg_encoder::Encoder::encode` for RGB pixels into a `Vec`: it fails only on
/// a zero dimension or fewer than `width * height * 3` bytes; the output starts with the
/// start-of-image marker and a marker after it, and ends with the end-of-image marker.
/// The byte count must be addressable, as the crate computes it in `usize`.
#[verifier::external_body]
pub(crate) fn encode_jpeg(rgb: &Vec<u8>, width: u16, height: u16, quality: u8, progressive: bool) -> (r: Result<Vec<u8>, String>)
    requires
        width as nat * height as nat * 3 <= usize::MAX,
    ensures
        r is Ok <==> (width > 0 && height > 0 && rgb@.len() >= width as nat * height as nat * 3),
        r matches Ok(out) ==> has_jpeg_signature(out@) && ends_with_jpeg_eoi(out@)
            && out@ == jpeg_bytes(rgb@, width as nat, height as nat, quality, progressive),
{
    let mut out: Vec<u8> = Vec::new();
    let mut enc = ::jpeg_encoder::Encoder::new(&mut out, quality);
    enc.set_progressive(progressive);
    match enc.encode(rgb, width, height, ::jpeg_encoder::ColorType::Rgb) {
        Ok(()) => Ok(out),
        Err(e) => Err(e.to_string()),
    }
}

} // verus!
