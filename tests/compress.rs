use std::io::Cursor;

use squish::errors::CompressorError;
use squish::format::InputFormat;
use squish::orientation::{get_exif_orientation, has_exif};
use squish::{compress_image, detect_format, CompressOptions};

fn encode(img: image::DynamicImage, format: image::ImageFormat) -> Vec<u8> {
    let mut out = Cursor::new(Vec::new());
    img.write_to(&mut out, format).unwrap();
    out.into_inner()
}

fn red_rgb(w: u32, h: u32, format: image::ImageFormat) -> Vec<u8> {
    encode(image::DynamicImage::ImageRgb8(image::RgbImage::from_pixel(w, h, image::Rgb([255, 0, 0]))), format)
}

fn gradient_rgba(w: u32, h: u32, alpha: u8) -> Vec<u8> {
    let img = image::RgbaImage::from_fn(w, h, |x, y| image::Rgba([(x * 7) as u8, (y * 5) as u8, ((x + y) * 3) as u8, alpha]));
    encode(image::DynamicImage::ImageRgba8(img), image::ImageFormat::Png)
}

fn options() -> CompressOptions {
    CompressOptions::default()
}

/// The chunk types of a PNG stream, in order.
fn png_chunks(png: &[u8]) -> Vec<(String, usize)> {
    let mut chunks = Vec::new();
    let mut at = 8;
    while at + 8 <= png.len() {
        let len = u32::from_be_bytes([png[at], png[at + 1], png[at + 2], png[at + 3]]) as usize;
        let kind = String::from_utf8_lossy(&png[at + 4..at + 8]).to_string();
        chunks.push((kind, len));
        at += 12 + len;
    }
    chunks
}

#[test]
fn jpeg_of_red_square_keeps_its_size() {
    let data = red_rgb(100, 100, image::ImageFormat::Png);
    let out = compress_image(&data, "jpeg", 80, &options()).unwrap();
    assert_eq!(&out[..2], &[0xff, 0xd8]);
    let back = image::load_from_memory(&out).unwrap();
    assert_eq!((back.width(), back.height()), (100, 100));
}

#[test]
fn png_max_width_keeps_aspect_ratio() {
    let data = red_rgb(200, 100, image::ImageFormat::Png);
    let mut opts = options();
    opts.resize_mode = Some("maxWidth".to_string());
    opts.resize_value = Some(50);
    let out = compress_image(&data, "png", 50, &opts).unwrap();
    let back = image::load_from_memory(&out).unwrap();
    assert_eq!((back.width(), back.height()), (50, 25));
}

#[test]
fn unsupported_format_name_is_refused() {
    let data = red_rgb(4, 4, image::ImageFormat::Png);
    match compress_image(&data, "tiff", 80, &options()) {
        Err(CompressorError::UnsupportedFormat(name)) => assert_eq!(name, "tiff"),
        other => panic!("unexpected {:?}", other),
    }
    // The name is checked before the bytes are looked at.
    assert!(matches!(compress_image(&[], "gif", 80, &options()), Err(CompressorError::UnsupportedFormat(_))));
}

#[test]
fn avif_output_is_not_enabled() {
    let data = red_rgb(4, 4, image::ImageFormat::Png);
    assert!(matches!(
        compress_image(&data, "avif", 80, &options()),
        Err(CompressorError::FeatureNotEnabled(InputFormat::Avif))
    ));
}

#[test]
fn webp_output_is_not_enabled() {
    let data = red_rgb(4, 4, image::ImageFormat::Png);
    assert!(matches!(
        compress_image(&data, "WEBP", 80, &options()),
        Err(CompressorError::FeatureNotEnabled(InputFormat::Webp))
    ));
}

#[test]
fn garbage_bytes_fail_to_decode() {
    for fmt in ["png", "jpg"] {
        assert!(matches!(compress_image(b"not an image", fmt, 80, &options()), Err(CompressorError::DecodeError(_))));
    }
}

#[test]
fn outputs_are_detected_as_the_requested_format() {
    let data = gradient_rgba(16, 16, 255);
    let png = compress_image(&data, "png", 70, &options()).unwrap();
    assert_eq!(detect_format(&png), "png");
    let jpg = compress_image(&data, "JPG", 70, &options()).unwrap();
    assert_eq!(detect_format(&jpg), "jpeg");
    let mut opts = options();
    opts.png_truecolor = Some(true);
    let truecolor = compress_image(&jpg, "png", 70, &opts).unwrap();
    assert_eq!(detect_format(&truecolor), "png");
}

#[test]
fn quantized_png_has_small_palette_and_no_trns_when_opaque() {
    let data = gradient_rgba(64, 64, 255);
    let out = compress_image(&data, "png", 60, &options()).unwrap();
    let chunks = png_chunks(&out);
    let plte = chunks.iter().find(|c| c.0 == "PLTE").expect("palette chunk");
    assert!(plte.1 <= 256 * 3 && plte.1 % 3 == 0);
    assert!(!chunks.iter().any(|c| c.0 == "tRNS"));
}

#[test]
fn quantized_png_has_trns_when_translucent() {
    let data = gradient_rgba(32, 32, 100);
    let out = compress_image(&data, "png", 60, &options()).unwrap();
    let chunks = png_chunks(&out);
    assert!(chunks.iter().any(|c| c.0 == "PLTE"));
    assert!(chunks.iter().any(|c| c.0 == "tRNS"));
    let back = image::load_from_memory(&out).unwrap().to_rgba8();
    assert!(back.pixels().all(|p| p[3] < 255));
}

#[test]
fn truecolor_png_has_no_palette() {
    let data = gradient_rgba(8, 8, 255);
    let mut opts = options();
    opts.png_truecolor = Some(true);
    let out = compress_image(&data, "png", 60, &opts).unwrap();
    assert!(!png_chunks(&out).iter().any(|c| c.0 == "PLTE"));
    let back = image::load_from_memory(&out).unwrap().to_rgba8();
    assert_eq!(back.get_pixel(3, 2).0, [21, 10, 15, 255]);
}

#[test]
fn percentage_resize_halves_jpeg() {
    let data = red_rgb(80, 40, image::ImageFormat::Png);
    let mut opts = options();
    opts.resize_mode = Some("percentage".to_string());
    opts.resize_value = Some(50);
    opts.progressive = Some(false);
    let out = compress_image(&data, "jpeg", 90, &opts).unwrap();
    let back = image::load_from_memory(&out).unwrap();
    assert_eq!((back.width(), back.height()), (40, 20));
}

#[test]
fn image_without_metadata_has_no_orientation() {
    let data = red_rgb(4, 4, image::ImageFormat::Png);
    assert!(!has_exif(&data));
    assert!(matches!(get_exif_orientation(&data), Err(CompressorError::ExifError(_))));
    // Lookup failures never stop the pipeline.
    assert!(compress_image(&data, "png", 80, &options()).is_ok());
}

/// A 40 by 20 JPEG whose metadata records the given orientation code.
fn jpeg_with_orientation(code: u8) -> Vec<u8> {
    let pixels = vec![200u8; 40 * 20 * 3];
    let mut exif = b"Exif\0\0MM\0\x2a\0\0\0\x08".to_vec();
    exif.extend_from_slice(&[0, 1, 0x01, 0x12, 0, 3, 0, 0, 0, 1, 0, code, 0, 0, 0, 0, 0, 0]);
    let mut out = Vec::new();
    let mut enc = jpeg_encoder::Encoder::new(&mut out, 90);
    enc.add_app_segment(1, &exif).unwrap();
    enc.encode(&pixels, 40, 20, jpeg_encoder::ColorType::Rgb).unwrap();
    out
}

#[test]
fn reads_orientation_from_metadata() {
    let data = jpeg_with_orientation(6);
    assert!(has_exif(&data));
    assert!(matches!(get_exif_orientation(&data), Ok(6)));
    assert_eq!(squish::orientation::resolve_orientation(&data), 6);
}

#[test]
fn auto_rotate_corrects_quarter_turn() {
    let data = jpeg_with_orientation(6);
    let out = compress_image(&data, "jpeg", 80, &options()).unwrap();
    let back = image::load_from_memory(&out).unwrap();
    assert_eq!((back.width(), back.height()), (20, 40));
    let mut opts = options();
    opts.auto_rotate = Some(false);
    let kept = compress_image(&data, "png", 80, &opts).unwrap();
    let back = image::load_from_memory(&kept).unwrap();
    assert_eq!((back.width(), back.height()), (40, 20));
}

#[test]
fn out_of_range_orientation_is_identity() {
    let data = jpeg_with_orientation(9);
    assert!(matches!(get_exif_orientation(&data), Ok(9)));
    assert_eq!(squish::orientation::resolve_orientation(&data), 1);
    let out = compress_image(&data, "jpeg", 80, &options()).unwrap();
    let back = image::load_from_memory(&out).unwrap();
    assert_eq!((back.width(), back.height()), (40, 20));
}

#[test]
fn quality_above_100_matches_100() {
    let data = gradient_rgba(24, 24, 255);
    for fmt in ["png", "jpeg"] {
        let high = compress_image(&data, fmt, 200, &options()).unwrap();
        let top = compress_image(&data, fmt, 100, &options()).unwrap();
        assert_eq!(high, top);
    }
}

#[test]
fn explicit_defaults_match_absent_options() {
    let data = gradient_rgba(24, 24, 180);
    let explicit = CompressOptions {
        dithering: Some(true),
        progressive: Some(true),
        resize_mode: Some("none".to_string()),
        resize_value: Some(100),
        auto_rotate: Some(true),
        strip_exif: Some(true),
        png_truecolor: Some(false),
    };
    for fmt in ["png", "jpeg"] {
        assert_eq!(compress_image(&data, fmt, 70, &options()).unwrap(), compress_image(&data, fmt, 70, &explicit).unwrap());
    }
}

#[test]
fn jpeg_output_ends_with_end_of_image() {
    let data = gradient_rgba(30, 10, 255);
    for progressive in [true, false] {
        let mut opts = options();
        opts.progressive = Some(progressive);
        let out = compress_image(&data, "jpeg", 75, &opts).unwrap();
        assert_eq!(&out[out.len() - 2..], &[0xff, 0xd9]);
        // Progressive frames use SOF2, baseline frames SOF0.
        let frame = if progressive { [0xff, 0xc2] } else { [0xff, 0xc0] };
        assert!(out.windows(2).any(|w| w == frame));
    }
}
