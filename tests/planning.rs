use squish::png::{indices_below, palette_chunks, quality_band};
use squish::pixels::Rgba;
use squish::resize::{plan_resize, ResizeMode};

#[test]
fn percentage_scales_both_axes() {
    assert_eq!(plan_resize(200, 100, ResizeMode::Percentage(50)), (100, 50));
    assert_eq!(plan_resize(3, 3, ResizeMode::Percentage(50)), (2, 2));
}

#[test]
fn percentage_of_100_or_more_keeps_size() {
    assert_eq!(plan_resize(200, 100, ResizeMode::Percentage(100)), (200, 100));
    assert_eq!(plan_resize(200, 100, ResizeMode::Percentage(150)), (200, 100));
}

#[test]
fn degenerate_targets_clamp_to_one() {
    assert_eq!(plan_resize(200, 100, ResizeMode::Percentage(0)), (1, 1));
    assert_eq!(plan_resize(200, 1, ResizeMode::MaxWidth(10)), (10, 1));
    assert_eq!(plan_resize(200, 100, ResizeMode::MaxWidth(0)), (1, 1));
}

#[test]
fn max_width_keeps_aspect_ratio() {
    assert_eq!(plan_resize(200, 100, ResizeMode::MaxWidth(50)), (50, 25));
    assert_eq!(plan_resize(200, 100, ResizeMode::MaxWidth(300)), (200, 100));
}

#[test]
fn max_height_keeps_aspect_ratio() {
    assert_eq!(plan_resize(200, 100, ResizeMode::MaxHeight(50)), (100, 50));
    assert_eq!(plan_resize(200, 100, ResizeMode::MaxHeight(100)), (200, 100));
}

#[test]
fn fixed_width_may_enlarge() {
    assert_eq!(plan_resize(200, 100, ResizeMode::Fixed(400)), (400, 200));
    assert_eq!(plan_resize(300, 100, ResizeMode::Fixed(100)), (100, 33));
}

#[test]
fn no_planned_axis_grows_or_empties() {
    let modes = [
        ResizeMode::Keep,
        ResizeMode::Percentage(1),
        ResizeMode::Percentage(99),
        ResizeMode::MaxWidth(7),
        ResizeMode::MaxHeight(7),
    ];
    for (w, h) in [(1u32, 1u32), (13, 400), (4000, 3)] {
        for m in modes {
            let (nw, nh) = plan_resize(w, h, m);
            assert!(nw >= 1 && nh >= 1 && nw <= w && nh <= h);
        }
    }
}

#[test]
fn parses_resize_mode_names() {
    assert_eq!(ResizeMode::parse("percentage", 30), ResizeMode::Percentage(30));
    assert_eq!(ResizeMode::parse("maxWidth", 30), ResizeMode::MaxWidth(30));
    assert_eq!(ResizeMode::parse("maxHeight", 30), ResizeMode::MaxHeight(30));
    assert_eq!(ResizeMode::parse("fixed", 30), ResizeMode::Fixed(30));
    assert_eq!(ResizeMode::parse("none", 30), ResizeMode::Keep);
    assert_eq!(ResizeMode::parse("maxwidth", 30), ResizeMode::Keep);
}

#[test]
fn quality_band_is_ten_wide_and_not_negative() {
    assert_eq!(quality_band(50), (40, 50));
    assert_eq!(quality_band(5), (0, 5));
    assert_eq!(quality_band(100), (90, 100));
}

#[test]
fn opaque_palette_has_no_transparency_chunk() {
    let pal = vec![Rgba { r: 1, g: 2, b: 3, a: 255 }, Rgba { r: 4, g: 5, b: 6, a: 255 }];
    let c = palette_chunks(&pal);
    assert_eq!(c.plte, vec![1, 2, 3, 4, 5, 6]);
    assert!(c.trns.is_none());
}

#[test]
fn translucent_palette_has_transparency_chunk() {
    let pal = vec![Rgba { r: 1, g: 2, b: 3, a: 255 }, Rgba { r: 4, g: 5, b: 6, a: 128 }];
    let c = palette_chunks(&pal);
    assert_eq!(c.plte, vec![1, 2, 3, 4, 5, 6]);
    assert_eq!(c.trns, Some(vec![255, 128]));
}

#[test]
fn index_check_finds_out_of_range_entries() {
    assert!(indices_below(&vec![0, 1, 2], 3));
    assert!(!indices_below(&vec![0, 3, 1], 3));
    assert!(indices_below(&vec![], 0));
}
