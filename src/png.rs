use vstd::prelude::*;

use crate::codecs::{
    bytes_view, decodes, png_indexed_bytes, png_rgba_bytes, quantize_error_text, quantize_rgba, quantized, write_indexed_png,
    write_rgba_png,
};
use crate::errors::CompressorError;
use crate::format::has_png_signature;
use crate::pipeline::{dims_in_range, load_pixels, loaded};
use crate::pixels::{PixelBuffer, Raster, Rgba};
use crate::resize::{mode_of_name, ResizeMode};

verus! {

/// The quantizer's search speed: a middle setting that favours quality.
pub const QUANTIZE_SPEED: i32 = 3;

/// The accepted quality band: ten below the target, not under zero, up to the target.
pub open spec fn band_of(quality: u8) -> (u8, u8) {
    (if quality >= 10 { (quality - 10) as u8 } else { 0u8 }, quality)
}

/// The PLTE chunk's bytes: red, green and blue of each entry in turn.
pub open spec fn plte_of(pal: Seq<Rgba>) -> Seq<u8> {
    Seq::new(pal.len() * 3, |i: int| {
        let c = pal[i / 3];
        if i % 3 == 0 { c.r } else if i % 3 == 1 { c.g } else { c.b }
    })
}

/// The tRNS chunk's bytes: the alpha of each entry.
pub open spec fn alphas_of(pal: Seq<Rgba>) -> Seq<u8> {
    pal.map_values(|c: Rgba| c.a)
}

/// Some palette entry is not fully opaque.
pub open spec fn has_translucent(pal: Seq<Rgba>) -> bool {
    exists|i: int| 0 <= i < pal.len() && (#[trigger] pal[i]).a < 255
}

/// The tRNS chunk's contents: the alphas, only when some entry is translucent.
pub open spec fn trns_of(pal: Seq<Rgba>) -> Option<Seq<u8>> {
    if has_translucent(pal) { Some(alphas_of(pal)) } else { None }
}

/// Qualities above 100 count as 100.
pub open spec fn clamp_quality(quality: u8) -> u8 {
    if quality > 100 { 100 } else { quality }
}

/// A usable quantization of `n` pixels: 1 to 256 palette entries, one index per pixel,
/// every index naming an entry.
pub open spec fn indices_fit(pal: Seq<Rgba>, idx: Seq<u8>, n: nat) -> bool {
    &&& 1 <= pal.len() <= 256
    &&& idx.len() == n
    &&& forall|i: int| 0 <= i < idx.len() ==> (#[trigger] idx[i] as nat) < pal.len()
}

/// What the quantizer makes of a raster at a target quality: the band of that quality,
/// speed `QUANTIZE_SPEED`, full dithering or none.
pub open spec fn quantized_raster(r: Raster, quality: u8, dithering: bool) -> Option<(Seq<Rgba>, Seq<u8>)> {
    quantized(r.data, r.width, r.height, band_of(quality).0, band_of(quality).1, QUANTIZE_SPEED, dithering)
}

/// The PNG that prepared pixels encode to: truecolor RGBA, or indexed over the
/// quantizer's palette with tRNS exactly when an entry is translucent; `None` when the
/// quantizer fails or gives an unusable result.
pub open spec fn png_output(r: Raster, quality: u8, dithering: bool, truecolor: bool) -> Option<Seq<u8>> {
    if truecolor {
        Some(png_rgba_bytes(r.width, r.height, r.data))
    } else {
        match quantized_raster(r, quality, dithering) {
            Some(q) => if indices_fit(q.0, q.1, r.width * r.height) {
                Some(png_indexed_bytes(r.width, r.height, plte_of(q.0), trns_of(q.0), q.1))
            } else {
                None
            },
            None => None,
        }
    }
}

/// The PNG that `compress_png` returns, or `None` when it fails.
pub open spec fn png_compressed(
    data: Seq<u8>,
    quality: u8,
    dithering: bool,
    mode: ResizeMode,
    auto_rotate: bool,
    truecolor: bool,
) -> Option<Seq<u8>> {
    match loaded(data, mode, auto_rotate) {
        Some(p) => png_output(p, clamp_quality(quality), dithering, truecolor),
        None => None,
    }
}

/// The two palette chunks of an indexed PNG.
pub struct PaletteChunks {
    pub plte: Vec<u8>,
    /// Present only when some entry is translucent.
    pub trns: Option<Vec<u8>>,
}

/// The quality band handed to the quantizer for a target quality.
pub fn quality_band(quality: u8) -> (r: (u8, u8))
    ensures
        r == band_of(quality),
{
    (quality.saturating_sub(10), quality)
}

/// Splits a palette into PLTE bytes and, when some entry is translucent, tRNS bytes.
pub fn palette_chunks(palette: &Vec<Rgba>) -> (r: PaletteChunks)
    requires
        palette@.len() <= 256,
    ensures
        r.plte@ == plte_of(palette@),
        r.trns is Some <==> has_translucent(palette@),
        r.trns matches Some(t) ==> t@ == alphas_of(palette@),
{
    let n = palette.len();
    let mut plte: Vec<u8> = Vec::with_capacity(n * 3);
    let mut alphas: Vec<u8> = Vec::with_capacity(n);
    let mut translucent = false;
    let mut i: usize = 0;
    while i < n
        invariant
            n == palette@.len(),
            n <= 256,
            i <= n,
            plte@.len() == i * 3,
            forall|j: int| 0 <= j < i * 3 ==> plte@[j] == #[trigger] plte_of(palette@)[j],
            alphas@ == alphas_of(palette@).take(i as int),
            translucent <==> exists|j: int| 0 <= j < i && (#[trigger] palette@[j]).a < 255,
        decreases n - i,
    {
        let c = palette[i];
        plte.push(c.r);
        plte.push(c.g);
        plte.push(c.b);
        alphas.push(c.a);
        if c.a < 255 {
            translucent = true;
        }
        proof {
            assert forall|j: int| 0 <= j < (i + 1) * 3 implies plte@[j] == #[trigger] plte_of(palette@)[j] by {
                if j >= i * 3 {
                    assert(j / 3 == i as int);
                }
            }
            assert(alphas@ =~= alphas_of(palette@).take(i + 1));
        }
        i = i + 1;
    }
    assert(plte@ =~= plte_of(palette@));
    assert(alphas@ =~= alphas_of(palette@));
    PaletteChunks { plte, trns: if translucent { Some(alphas) } else { None } }
}

/// Whether every index names one of `n` palette entries.
pub fn indices_below(indices: &Vec<u8>, n: usize) -> (r: bool)
    ensures
        r == forall|i: int| 0 <= i < indices@.len() ==> (#[trigger] indices@[i] as nat) < n,
{
    let mut i: usize = 0;
    while i < indices.len()
        invariant
            i <= indices@.len(),
            forall|j: int| 0 <= j < i ==> (#[trigger] indices@[j] as nat) < n,
        decreases indices@.len() - i,
    {
        if indices[i] as usize >= n {
            return false;
        }
        i = i + 1;
    }
    true
}

/// Reduces RGBA pixels to a palette of 1 to 256 colours and one index per pixel.
///
/// The quantizer works within the quality band of `quality` at speed `QUANTIZE_SPEED`,
/// with full dithering or none. Its failures, and results whose indices do not fit the
/// palette, are `EncodeError`s; nothing is truncated.
pub fn quantize_pixels(buf: &PixelBuffer, quality: u8, dithering: bool) -> (r: Result<(Vec<Rgba>, Vec<u8>), CompressorError>)
    requires
        buf.wf(),
        buf.channels == 4,
        quality <= 100,
    ensures
        match r {
            Ok(p) => quantized_raster(buf@, quality, dithering) == Some((p.0@, p.1@))
                && indices_fit(p.0@, p.1@, buf.width as nat * buf.height as nat),
            Err(e) => e is EncodeError && match quantized_raster(buf@, quality, dithering) {
                Some(q) => !indices_fit(q.0, q.1, buf.width as nat * buf.height as nat),
                None => true,
            },
        },
{
    let (minimum, target) = quality_band(quality);
    let (palette, indices) = match quantize_rgba(&buf.data, buf.width as usize, buf.height as usize, minimum, target, QUANTIZE_SPEED, dithering) {
        Ok(p) => p,
        Err(e) => return Err(CompressorError::EncodeError(quantize_error_text(&e))),
    };
    if palette.len() == 0 || !indices_below(&indices, palette.len()) {
        return Err(CompressorError::EncodeError(String::from_str("quantized indices do not fit the palette")));
    }
    Ok((palette, indices))
}

/// Writes an indexed PNG from a palette and its per-pixel indices; the tRNS chunk is
/// written exactly when some entry is translucent.
pub fn write_indexed(width: u32, height: u32, palette: &Vec<Rgba>, indices: &Vec<u8>) -> (r: Result<Vec<u8>, CompressorError>)
    requires
        palette@.len() <= 256,
        width as nat * height as nat <= usize::MAX,
    ensures
        r is Ok <==> (width > 0 && height > 0 && indices@.len() == width as nat * height as nat),
        r matches Ok(out) ==> has_png_signature(out@)
            && out@ == png_indexed_bytes(width as nat, height as nat, plte_of(palette@), trns_of(palette@), indices@),
        r matches Err(e) ==> e is EncodeError,
{
    let chunks = palette_chunks(palette);
    proof {
        assert(bytes_view(chunks.trns) == trns_of(palette@));
    }
    match write_indexed_png(width, height, chunks.plte, chunks.trns, indices) {
        Ok(out) => Ok(out),
        Err(msg) => Err(CompressorError::EncodeError(msg)),
    }
}

/// Encodes prepared RGBA pixels as PNG: truecolor RGBA when `truecolor` is set, else
/// indexed through the quantizer.
pub fn encode_png_pixels(buf: &PixelBuffer, quality: u8, dithering: bool, truecolor: bool) -> (r: Result<Vec<u8>, CompressorError>)
    requires
        buf.wf(),
        buf.channels == 4,
        quality <= 100,
        dims_in_range(buf.width as nat, buf.height as nat),
    ensures
        match r {
            Ok(out) => png_output(buf@, quality, dithering, truecolor) == Some(out@) && has_png_signature(out@),
            Err(e) => png_output(buf@, quality, dithering, truecolor) is None && e is EncodeError,
        },
{
    if truecolor {
        return match write_rgba_png(buf.width, buf.height, &buf.data) {
            Ok(out) => Ok(out),
            Err(msg) => Err(CompressorError::EncodeError(msg)),
        };
    }
    let (palette, indices) = quantize_pixels(buf, quality, dithering)?;
    write_indexed(buf.width, buf.height, &palette, &indices)
}

/// Recompresses image bytes as PNG.
///
/// Qualities above 100 count as 100. `auto_rotate` corrects for the orientation
/// recorded in the image's metadata; the output carries no metadata.
pub fn compress_png(
    data: &[u8],
    quality: u8,
    dithering: bool,
    resize_mode: &str,
    resize_value: u32,
    auto_rotate: bool,
    png_truecolor: bool,
) -> (r: Result<Vec<u8>, CompressorError>)
    ensures
        ({
            let expected = png_compressed(data@, quality, dithering, mode_of_name(resize_mode@, resize_value), auto_rotate, png_truecolor);
            match r {
                Ok(out) => expected == Some(out@) && has_png_signature(out@),
                Err(e) => expected is None && if decodes(data@) { e is EncodeError } else { e is DecodeError },
            }
        }),
{
    let quality = if quality > 100 { 100 } else { quality };
    let pixels = load_pixels(data, ResizeMode::parse(resize_mode, resize_value), auto_rotate)?;
    encode_png_pixels(&pixels, quality, dithering, png_truecolor)
}

} // verus!
