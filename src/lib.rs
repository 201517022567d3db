//! Recompression of PNG, JPEG, WebP and AVIF images: format detection, orientation
//! correction, resize planning, palette quantization and the per-format encoders.
use vstd::prelude::*;

pub mod avif;
pub mod codecs;
pub mod errors;
pub mod format;
pub mod jpeg;
pub mod orientation;
pub mod pipeline;
pub mod pixels;
pub mod png;
pub mod resize;
pub mod webp;

use crate::codecs::decodes;
use crate::errors::CompressorError;
use crate::format::{detected_format, format_name, format_of_name, sniff_format, InputFormat};
use crate::jpeg::jpeg_compressed;
use crate::png::png_compressed;
use crate::resize::{mode_of_name, ResizeMode};

verus! {

/// Caller options; an absent field takes its default.
#[derive(Debug, Clone)]
pub struct CompressOptions {
    /// Dither the reduced palette (default on).
    pub dithering: Option<bool>,
    /// Progressive JPEG scans (default on).
    pub progressive: Option<bool>,
    /// `percentage`, `maxWidth`, `maxHeight` or `fixed`; anything else keeps the size.
    pub resize_mode: Option<String>,
    /// The percentage or pixel count for `resize_mode` (default 100).
    pub resize_value: Option<u32>,
    /// Correct for the orientation in the image's metadata (default on).
    pub auto_rotate: Option<bool>,
    /// Leave metadata out of the output (default on).
    pub strip_exif: Option<bool>,
    /// Write truecolor PNG instead of a quantized palette (default off).
    pub png_truecolor: Option<bool>,
}

impl Default for CompressOptions {
    fn default() -> (r: CompressOptions)
        ensures
            r.dithering is None,
            r.progressive is None,
            r.resize_mode is None,
            r.resize_value is None,
            r.auto_rotate is None,
            r.strip_exif is None,
            r.png_truecolor is None,
    {
        CompressOptions {
            dithering: None,
            progressive: None,
            resize_mode: None,
            resize_value: None,
            auto_rotate: None,
            strip_exif: None,
            png_truecolor: None,
        }
    }
}

/// An option's value, or its default when absent.
pub open spec fn flag_value(flag: Option<bool>, default: bool) -> bool {
    match flag {
        Some(b) => b,
        None => default,
    }
}

/// The resize mode that the options select; absent fields mean `none` and 100.
pub open spec fn resize_of(options: CompressOptions) -> ResizeMode {
    mode_of_name(
        match options.resize_mode {
            Some(m) => m@,
            None => "none"@,
        },
        match options.resize_value {
            Some(v) => v,
            None => 100,
        },
    )
}

/// The bytes that `compress_image` returns for a PNG or JPEG request, or `None` when it
/// fails.
pub open spec fn compressed(data: Seq<u8>, format: InputFormat, quality: u8, options: CompressOptions) -> Option<Seq<u8>> {
    let auto_rotate = flag_value(options.auto_rotate, true);
    match format {
        InputFormat::Png => png_compressed(
            data,
            quality,
            flag_value(options.dithering, true),
            resize_of(options),
            auto_rotate,
            flag_value(options.png_truecolor, false),
        ),
        InputFormat::Jpeg => jpeg_compressed(data, quality, flag_value(options.progressive, true), resize_of(options), auto_rotate),
        _ => None,
    }
}

/// A quality above 100 compresses exactly as 100 does.
pub proof fn lemma_quality_above_100_is_100(data: Seq<u8>, format: InputFormat, quality: u8, options: CompressOptions)
    requires
        quality > 100,
    ensures
        compressed(data, format, quality, options) == compressed(data, format, 100, options),
{
}

/// Absent options compress exactly as the explicit defaults do: dithering, progressive
/// scans, auto-rotation and metadata stripping on, no resize, palette output.
pub proof fn lemma_absent_options_are_defaults(
    data: Seq<u8>,
    format: InputFormat,
    quality: u8,
    absent: CompressOptions,
    explicit: CompressOptions,
)
    requires
        absent.dithering is None,
        absent.progressive is None,
        absent.resize_mode is None,
        absent.resize_value is None,
        absent.auto_rotate is None,
        absent.strip_exif is None,
        absent.png_truecolor is None,
        explicit.dithering == Some(true),
        explicit.progressive == Some(true),
        explicit.resize_mode matches Some(m) && m@ == "none"@,
        explicit.resize_value == Some(100u32),
        explicit.auto_rotate == Some(true),
        explicit.strip_exif == Some(true),
        explicit.png_truecolor == Some(false),
    ensures
        compressed(data, format, quality, absent) == compressed(data, format, quality, explicit),
{
}

fn flag_or(flag: Option<bool>, default: bool) -> (r: bool)
    ensures
        r == flag_value(flag, default),
{
    match flag {
        Some(b) => b,
        None => default,
    }
}

/// Recompresses `data` into the format that `format` names (ignoring ASCII case;
/// `jpg` is JPEG), at `quality` (values above 100 count as 100).
///
/// An unknown name fails with `UnsupportedFormat` before the bytes are read. WebP and
/// AVIF fail with `FeatureNotEnabled`. PNG and JPEG output starts with that format's
/// signature, so detection on the output finds the requested format.
pub fn compress_image(data: &[u8], format: &str, quality: u8, options: &CompressOptions) -> (r: Result<Vec<u8>, CompressorError>)
    ensures
        match format_of_name(format@) {
            None => r matches Err(CompressorError::UnsupportedFormat(name)) && name@ == format@,
            Some(InputFormat::Webp) => r == Err::<Vec<u8>, CompressorError>(CompressorError::FeatureNotEnabled(InputFormat::Webp)),
            Some(InputFormat::Avif) => r == Err::<Vec<u8>, CompressorError>(CompressorError::FeatureNotEnabled(InputFormat::Avif)),
            Some(f) => match r {
                Ok(out) => compressed(data@, f, quality, *options) == Some(out@) && detected_format(out@) == Some(f),
                Err(e) => compressed(data@, f, quality, *options) is None
                    && if decodes(data@) { e is EncodeError } else { e is DecodeError },
            },
        },
        !(r matches Err(e) && e is ExifError),
{
    let quality = if quality > 100 { 100 } else { quality };
    let fmt = match InputFormat::from_str(format) {
        Some(f) => f,
        None => return Err(CompressorError::UnsupportedFormat(String::from_str(format))),
    };
    let resize_mode: &str = match &options.resize_mode {
        Some(m) => m.as_str(),
        None => "none",
    };
    let resize_value: u32 = match options.resize_value {
        Some(v) => v,
        None => 100,
    };
    let auto_rotate = flag_or(options.auto_rotate, true);
    match fmt {
        InputFormat::Png => png::compress_png(
            data,
            quality,
            flag_or(options.dithering, true),
            resize_mode,
            resize_value,
            auto_rotate,
            flag_or(options.png_truecolor, false),
        ),
        InputFormat::Jpeg => jpeg::compress_jpeg(
            data,
            quality,
            flag_or(options.progressive, true),
            resize_mode,
            resize_value,
            auto_rotate,
            flag_or(options.strip_exif, true),
        ),
        InputFormat::Webp => webp::compress_webp(data, quality),
        InputFormat::Avif => avif::compress_avif(data, quality),
    }
}

/// The name of the format that the bytes announce, or `unknown`.
pub fn detect_format(data: &[u8]) -> (r: String)
    ensures
        r@ == match detected_format(data@) {
            Some(f) => format_name(f),
            None => "unknown"@,
        },
{
    match sniff_format(data) {
        Some(f) => String::from_str(f.as_str()),
        None => String::from_str("unknown"),
    }
}

} // verus!
