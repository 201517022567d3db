use squish::format::{detect_format, sniff_format, InputFormat};

fn avif_header(brand: &[u8; 4]) -> Vec<u8> {
    let mut b = vec![0u8, 0, 0, 28];
    b.extend_from_slice(b"ftyp");
    b.extend_from_slice(brand);
    b.resize(28, 0);
    b
}

#[test]
fn detects_png_signature() {
    let b = [0x89u8, 0x50, 0x4e, 0x47, 0x0d, 0x0a, 0x1a, 0x0a, 0, 0];
    assert_eq!(detect_format(&b), Some("png"));
    assert_eq!(squish::detect_format(&b), "png");
}

#[test]
fn detects_jpeg_signature() {
    assert_eq!(detect_format(&[0xff, 0xd8, 0xff]), Some("jpeg"));
    assert_eq!(detect_format(&[0xff, 0xd8]), None);
}

#[test]
fn detects_webp_riff_container() {
    let mut b = b"RIFF".to_vec();
    b.extend_from_slice(&[0, 0, 0, 0]);
    b.extend_from_slice(b"WEBP");
    assert_eq!(detect_format(&b), Some("webp"));
    let mut wave = b"RIFF".to_vec();
    wave.extend_from_slice(&[0, 0, 0, 0]);
    wave.extend_from_slice(b"WAVE");
    assert_eq!(detect_format(&wave), None);
}

#[test]
fn detects_avif_brands_only_with_28_bytes() {
    assert_eq!(detect_format(&avif_header(b"avif")), Some("avif"));
    assert_eq!(detect_format(&avif_header(b"avis")), Some("avif"));
    assert_eq!(detect_format(&avif_header(b"heic")), None);
    let short = &avif_header(b"avif")[..27];
    assert_eq!(detect_format(short), None);
}

#[test]
fn unknown_bytes_report_unknown() {
    assert_eq!(detect_format(&[]), None);
    assert_eq!(squish::detect_format(b"GIF89a"), "unknown");
    assert_eq!(sniff_format(b"GIF89a"), None);
}

#[test]
fn parses_format_names_ignoring_case() {
    assert_eq!(InputFormat::from_str("png"), Some(InputFormat::Png));
    assert_eq!(InputFormat::from_str("PNG"), Some(InputFormat::Png));
    assert_eq!(InputFormat::from_str("Jpg"), Some(InputFormat::Jpeg));
    assert_eq!(InputFormat::from_str("jpeg"), Some(InputFormat::Jpeg));
    assert_eq!(InputFormat::from_str("WebP"), Some(InputFormat::Webp));
    assert_eq!(InputFormat::from_str("avif"), Some(InputFormat::Avif));
    assert_eq!(InputFormat::from_str("tiff"), None);
    assert_eq!(InputFormat::from_str(""), None);
    assert_eq!(InputFormat::from_str("pngx"), None);
}

#[test]
fn format_names_round_trip() {
    for f in [InputFormat::Png, InputFormat::Jpeg, InputFormat::Webp, InputFormat::Avif] {
        assert_eq!(InputFormat::from_str(f.as_str()), Some(f));
    }
}
