use squish::codecs::OrientationTag;
use squish::orientation::{apply_exif_rotation, orientation_code};
use squish::pixels::{drop_alpha, transform, PixelBuffer, Transform};

/// A 3 by 2 RGB image whose pixel (x, y) holds (x, y, 10 * y + x).
fn sample() -> PixelBuffer {
    let mut data = Vec::new();
    for y in 0..2u8 {
        for x in 0..3u8 {
            data.extend_from_slice(&[x, y, 10 * y + x]);
        }
    }
    PixelBuffer { width: 3, height: 2, channels: 3, data }
}

fn pixel(b: &PixelBuffer, x: usize, y: usize) -> u8 {
    b.data[(y * b.width as usize + x) * b.channels as usize + 2]
}

#[test]
fn horizontal_flip_mirrors_rows() {
    let f = transform(&sample(), Transform::FlipHorizontal);
    assert_eq!((f.width, f.height), (3, 2));
    assert_eq!(pixel(&f, 0, 0), 2);
    assert_eq!(pixel(&f, 2, 1), 10);
}

#[test]
fn quarter_turn_is_clockwise() {
    let r = transform(&sample(), Transform::Rotate90);
    assert_eq!((r.width, r.height), (2, 3));
    // The bottom-left source pixel lands at the top-left.
    assert_eq!(pixel(&r, 0, 0), 10);
    assert_eq!(pixel(&r, 1, 0), 0);
    assert_eq!(pixel(&r, 1, 2), 2);
}

#[test]
fn flips_and_half_turn_undo_themselves() {
    for code in [2u32, 3, 4] {
        let once = apply_exif_rotation(sample(), code);
        assert_ne!(once.data, sample().data);
        let twice = apply_exif_rotation(once, code);
        assert_eq!(twice.data, sample().data);
        assert_eq!((twice.width, twice.height), (3, 2));
    }
}

#[test]
fn quarter_then_three_quarter_turn_is_identity() {
    let back = apply_exif_rotation(apply_exif_rotation(sample(), 6), 8);
    assert_eq!(back.data, sample().data);
    assert_eq!((back.width, back.height), (3, 2));
}

#[test]
fn transposing_codes_swap_dimensions() {
    for code in [5u32, 6, 7, 8] {
        let o = apply_exif_rotation(sample(), code);
        assert_eq!((o.width, o.height), (2, 3));
    }
    // Code 5: vertical flip, then a quarter turn; the top-left source pixel ends at the top-left.
    assert_eq!(pixel(&apply_exif_rotation(sample(), 5), 0, 0), 0);
    // Code 7: horizontal flip, then a quarter turn.
    assert_eq!(pixel(&apply_exif_rotation(sample(), 7), 0, 0), 12);
}

#[test]
fn unknown_codes_are_identity() {
    assert_eq!(apply_exif_rotation(sample(), 1).data, sample().data);
    assert_eq!(apply_exif_rotation(sample(), 0).data, sample().data);
    assert_eq!(apply_exif_rotation(sample(), 9).data, sample().data);
}

#[test]
fn orientation_lookup_defaults_to_identity() {
    assert_eq!(orientation_code(OrientationTag::Unreadable), 1);
    assert_eq!(orientation_code(OrientationTag::Missing), 1);
    assert_eq!(orientation_code(OrientationTag::Tagged(None)), 1);
    assert_eq!(orientation_code(OrientationTag::Tagged(Some(0))), 1);
    assert_eq!(orientation_code(OrientationTag::Tagged(Some(9))), 1);
    assert_eq!(orientation_code(OrientationTag::Tagged(Some(6))), 6);
}

#[test]
fn dropping_alpha_keeps_colour_bytes() {
    let b = PixelBuffer { width: 2, height: 1, channels: 4, data: vec![1, 2, 3, 4, 5, 6, 7, 8] };
    let rgb = drop_alpha(&b);
    assert_eq!(rgb.channels, 3);
    assert_eq!(rgb.data, vec![1, 2, 3, 5, 6, 7]);
}
