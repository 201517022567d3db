use vstd::prelude::*;
use vstd::arithmetic::div_mod::{lemma_fundamental_div_mod, lemma_fundamental_div_mod_converse};

verus! {

/// A decoded image: rows of pixels, each pixel `channels` bytes (3 for RGB, 4 for RGBA).
#[derive(Debug, Clone)]
pub struct PixelBuffer {
    pub width: u32,
    pub height: u32,
    pub channels: u8,
    pub data: Vec<u8>,
}

/// One palette colour with its alpha.
#[derive(Debug, Clone, Copy, PartialEq, Eq, Structural)]
pub struct Rgba {
    pub r: u8,
    pub g: u8,
    pub b: u8,
    pub a: u8,
}

/// The mathematical content of a pixel buffer.
pub struct Raster {
    pub width: nat,
    pub height: nat,
    pub channels: nat,
    pub data: Seq<u8>,
}

impl View for PixelBuffer {
    type V = Raster;

    open spec fn view(&self) -> Raster {
        Raster {
            width: self.width as nat,
            height: self.height as nat,
            channels: self.channels as nat,
            data: self.data@,
        }
    }
}

/// A geometric transform of the pixel grid.
#[derive(Debug, Clone, Copy, PartialEq, Eq, Structural)]
pub enum Transform {
    FlipHorizontal,
    FlipVertical,
    Rotate90,
    Rotate180,
    Rotate270,
}

impl Raster {
    pub open spec fn wf(self) -> bool {
        &&& self.channels == 3 || self.channels == 4
        &&& self.data.len() == self.width * self.height * self.channels
    }
}

impl PixelBuffer {
    /// Three or four channels, and exactly one pixel's bytes per grid cell.
    pub open spec fn wf(&self) -> bool {
        self@.wf()
    }
}

/// Position of byte `k` of pixel `(x, y)` in a row-major buffer of width `w`.
pub open spec fn byte_index(w: nat, c: nat, x: nat, y: nat, k: nat) -> nat {
    (y * w + x) * c + k
}

/// Byte `k` of pixel `(x, y)`.
pub open spec fn byte_at(r: Raster, x: nat, y: nat, k: nat) -> u8 {
    r.data[byte_index(r.width, r.channels, x, y, k) as int]
}

/// The dimensions after a transform: quarter turns swap width and height.
pub open spec fn transformed_dims(t: Transform, w: nat, h: nat) -> (nat, nat) {
    match t {
        Transform::Rotate90 | Transform::Rotate270 => (h, w),
        _ => (w, h),
    }
}

/// The source pixel that lands on `(x, y)` of the output, for a `w` by `h` source.
/// Quarter turns are clockwise.
pub open spec fn source_of(t: Transform, w: nat, h: nat, x: nat, y: nat) -> (nat, nat) {
    match t {
        Transform::FlipHorizontal => ((w - 1 - x) as nat, y),
        Transform::FlipVertical => (x, (h - 1 - y) as nat),
        Transform::Rotate180 => ((w - 1 - x) as nat, (h - 1 - y) as nat),
        Transform::Rotate90 => (y, (h - 1 - x) as nat),
        Transform::Rotate270 => ((w - 1 - y) as nat, x),
    }
}

/// Byte `i` of the transformed buffer, read from the source.
pub open spec fn transformed_byte(r: Raster, t: Transform, i: nat) -> u8 {
    let c = r.channels;
    let ow = transformed_dims(t, r.width, r.height).0;
    let p = i / c;
    let src = source_of(t, r.width, r.height, p % ow, p / ow);
    byte_at(r, src.0, src.1, i % c)
}

/// The raster after a transform.
pub open spec fn transformed(r: Raster, t: Transform) -> Raster {
    let d = transformed_dims(t, r.width, r.height);
    Raster {
        width: d.0,
        height: d.1,
        channels: r.channels,
        data: Seq::new(r.data.len(), |i: int| transformed_byte(r, t, i as nat)),
    }
}

/// The raster with the alpha channel of every pixel left out.
pub open spec fn without_alpha(r: Raster) -> Raster {
    Raster {
        width: r.width,
        height: r.height,
        channels: 3,
        data: Seq::new(r.width * r.height * 3, |i: int| r.data[(i / 3) * 4 + i % 3]),
    }
}

pub proof fn lemma_byte_index_bound(w: nat, h: nat, c: nat, x: nat, y: nat, k: nat)
    requires
        x < w,
        y < h,
        k < c,
    ensures
        byte_index(w, c, x, y, k) < w * h * c,
        (y * w + x) * c <= byte_index(w, c, x, y, k),
        y * w + x <= (y * w + x) * c,
        y * w <= y * w + x,
{
    assert(y * w + x <= (y * w + x) * c) by (nonlinear_arith)
        requires
            k < c,
    ;
    assert(y * w + x < w * h) by (nonlinear_arith)
        requires
            x < w,
            y < h,
    ;
    assert((y * w + x) * c + k < w * h * c) by (nonlinear_arith)
        requires
            y * w + x < w * h,
            k < c,
    ;
}

/// A byte index splits back into its pixel coordinates and channel.
pub proof fn lemma_byte_index_split(w: nat, c: nat, x: nat, y: nat, k: nat)
    requires
        x < w,
        k < c,
    ensures
        byte_index(w, c, x, y, k) / c == y * w + x,
        byte_index(w, c, x, y, k) % c == k,
        (y * w + x) / w == y,
        (y * w + x) % w == x,
{
    lemma_fundamental_div_mod_converse((byte_index(w, c, x, y, k)) as int, c as int, (y * w + x) as int, k as int);
    lemma_fundamental_div_mod_converse((y * w + x) as int, w as int, y as int, x as int);
}

/// Every index below `w * h * c` is the byte index of some pixel and channel.
pub proof fn lemma_index_of_split(i: nat, w: nat, h: nat, c: nat)
    requires
        i < w * h * c,
        c > 0,
    ensures
        w > 0,
        (i / c) % w < w,
        (i / c) / w < h,
        i % c < c,
        byte_index(w, c, (i / c) % w, (i / c) / w, i % c) == i,
{
    let p = i / c;
    lemma_fundamental_div_mod(i as int, c as int);
    if w == 0 {
        assert(w * h * c == 0) by (nonlinear_arith)
            requires
                w == 0,
        ;
    }
    lemma_fundamental_div_mod(p as int, w as int);
    assert(p < w * h) by (nonlinear_arith)
        requires
            i == c * p + i % c,
            i % c >= 0,
            i < w * h * c,
            c > 0,
    ;
    assert(p / w < h) by (nonlinear_arith)
        requires
            p == w * (p / w) + p % w,
            p % w >= 0,
            p < w * h,
            w > 0,
    ;
    assert(((p / w) * w + p % w) * c + i % c == i) by (nonlinear_arith)
        requires
            p == w * (p / w) + p % w,
            i == c * p + i % c,
    ;
}

/// The transform keeps the byte count, so a buffer stays well formed.
pub proof fn lemma_transformed_wf(r: Raster, t: Transform)
    requires
        r.wf(),
    ensures
        transformed(r, t).wf(),
{
    let d = transformed_dims(t, r.width, r.height);
    assert(d.0 * d.1 * r.channels == r.width * r.height * r.channels) by (nonlinear_arith)
        requires
            d == (r.width, r.height) || d == (r.height, r.width),
    ;
}

/// The source coordinates of an in-range output pixel are in range.
pub proof fn lemma_source_in_range(t: Transform, w: nat, h: nat, x: nat, y: nat)
    requires
        x < transformed_dims(t, w, h).0,
        y < transformed_dims(t, w, h).1,
    ensures
        source_of(t, w, h, x, y).0 < w,
        source_of(t, w, h, x, y).1 < h,
{
}

/// Applies a geometric transform to a pixel buffer.
pub fn transform(buf: &PixelBuffer, t: Transform) -> (r: PixelBuffer)
    requires
        buf.wf(),
    ensures
        r.wf(),
        r@ == transformed(buf@, t),
{
    let w = buf.width as usize;
    let h = buf.height as usize;
    let c = buf.channels as usize;
    let quarter = match t {
        Transform::Rotate90 | Transform::Rotate270 => true,
        _ => false,
    };
    let ow: usize = if quarter { h } else { w };
    let n = buf.data.len();
    let ghost d = transformed_dims(t, w as nat, h as nat);
    proof {
        lemma_transformed_wf(buf@, t);
        assert(d.0 * d.1 * c == w * h * c) by (nonlinear_arith)
            requires
                d == (w as nat, h as nat) || d == (h as nat, w as nat),
        ;
    }
    let mut out: Vec<u8> = Vec::with_capacity(n);
    let mut i: usize = 0;
    while i < n
        invariant
            buf.wf(),
            w == buf.width,
            h == buf.height,
            c == buf.channels,
            n == buf.data@.len(),
            n == d.0 * d.1 * c,
            d == transformed_dims(t, w as nat, h as nat),
            ow == d.0,
            i <= n,
            out@.len() == i,
            forall|j: int| 0 <= j < i ==> out@[j] == #[trigger] transformed_byte(buf@, t, j as nat),
        decreases n - i,
    {
        let p = i / c;
        let k = i % c;
        proof {
            lemma_index_of_split(i as nat, d.0, d.1, c as nat);
        }
        let ox = p % ow;
        let oy = p / ow;
        let (sx, sy): (usize, usize) = match t {
            Transform::FlipHorizontal => (w - 1 - ox, oy),
            Transform::FlipVertical => (ox, h - 1 - oy),
            Transform::Rotate180 => (w - 1 - ox, h - 1 - oy),
            Transform::Rotate90 => (oy, h - 1 - ox),
            Transform::Rotate270 => (w - 1 - oy, ox),
        };
        proof {
            lemma_source_in_range(t, w as nat, h as nat, ox as nat, oy as nat);
            lemma_byte_index_bound(w as nat, h as nat, c as nat, sx as nat, sy as nat, k as nat);
        }
        let j = (sy * w + sx) * c + k;
        out.push(buf.data[j]);
        i = i + 1;
    }
    let (rw, rh) = if quarter { (buf.height, buf.width) } else { (buf.width, buf.height) };
    let r = PixelBuffer { width: rw, height: rh, channels: buf.channels, data: out };
    assert(r@.data =~= transformed(buf@, t).data);
    r
}

/// Drops the alpha channel of a four-channel buffer.
pub fn drop_alpha(buf: &PixelBuffer) -> (r: PixelBuffer)
    requires
        buf.wf(),
        buf.channels == 4,
    ensures
        r.wf(),
        r@ == without_alpha(buf@),
{
    let w = buf.width as usize;
    let h = buf.height as usize;
    let ghost np = (w * h) as nat;
    proof {
        assert(w * h * 4 == np * 4 && w * h * 3 == np * 3) by (nonlinear_arith)
            requires
                np == w * h,
        ;
    }
    let len = buf.data.len();
    let n = len / 4 * 3;
    let mut out: Vec<u8> = Vec::with_capacity(n);
    let mut i: usize = 0;
    while i < n
        invariant
            buf.wf(),
            buf.channels == 4,
            buf.data@.len() == np * 4,
            len == buf.data@.len(),
            n == np * 3,
            np == buf.width * buf.height,
            i <= n,
            out@.len() == i,
            forall|j: int| 0 <= j < i ==> out@[j] == buf.data@[(j / 3) * 4 + j % 3],
        decreases n - i,
    {
        proof {
            lemma_fundamental_div_mod(i as int, 3);
            assert((i / 3) * 4 + i % 3 < np * 4) by (nonlinear_arith)
                requires
                    i == 3 * (i / 3) + i % 3,
                    0 <= i % 3 < 3,
                    i < np * 3,
            ;
        }
        let q: usize = i / 3;
        assert(q * 4 + i % 3 < buf.data@.len());
        assert(q * 4 <= q * 4 + i % 3);
        let at: usize = q * 4 + i % 3;
        out.push(buf.data[at]);
        i = i + 1;
    }
    let r = PixelBuffer { width: buf.width, height: buf.height, channels: 3, data: out };
    assert(r@.data =~= without_alpha(buf@).data);
    r
}


/// Two transforms cancel when the second one's source map, followed by the first one's,
/// returns every pixel to where it started.
pub open spec fn cancels(t1: Transform, t2: Transform, w: nat, h: nat) -> bool {
    let m = transformed_dims(t1, w, h);
    &&& transformed_dims(t2, m.0, m.1) == (w, h)
    &&& forall|x: nat, y: nat| #![trigger source_of(t2, m.0, m.1, x, y)]
        x < w && y < h ==> {
            let s = source_of(t2, m.0, m.1, x, y);
            source_of(t1, w, h, s.0, s.1) == (x, y)
        }
}

/// Applying `t1` and then `t2` gives back the original raster when they cancel.
pub proof fn lemma_cancelling_pair(r: Raster, t1: Transform, t2: Transform)
    requires
        r.wf(),
        cancels(t1, t2, r.width, r.height),
    ensures
        transformed(transformed(r, t1), t2) == r,
{
    let mid = transformed(r, t1);
    let fin = transformed(mid, t2);
    let c = r.channels;
    let (w, h) = (r.width, r.height);
    let (mw, mh) = (mid.width, mid.height);
    lemma_transformed_wf(r, t1);
    assert forall|i: int| 0 <= i < fin.data.len() implies fin.data[i] == r.data[i] by {
        let iu = i as nat;
        lemma_index_of_split(iu, w, h, c);
        let x = (iu / c) % w;
        let y = (iu / c) / w;
        let k = iu % c;
        let s = source_of(t2, mw, mh, x, y);
        lemma_source_in_range(t2, mw, mh, x, y);
        lemma_byte_index_bound(mw, mh, c, s.0, s.1, k);
        lemma_byte_index_split(mw, c, s.0, s.1, k);
        let j = byte_index(mw, c, s.0, s.1, k);
        assert(fin.data[i] == mid.data[j as int]);
        assert(mid.data[j as int] == transformed_byte(r, t1, j));
        assert(source_of(t1, w, h, s.0, s.1) == (x, y));
    }
    assert(fin.data =~= r.data);
}

pub proof fn lemma_flips_cancel(r: Raster, t: Transform)
    requires
        r.wf(),
        t is FlipHorizontal || t is FlipVertical || t is Rotate180,
    ensures
        transformed(transformed(r, t), t) == r,
{
    lemma_cancelling_pair(r, t, t);
}

pub proof fn lemma_quarter_turns_cancel(r: Raster)
    requires
        r.wf(),
    ensures
        transformed(transformed(r, Transform::Rotate90), Transform::Rotate270) == r,
        transformed(transformed(r, Transform::Rotate270), Transform::Rotate90) == r,
{
    lemma_cancelling_pair(r, Transform::Rotate90, Transform::Rotate270);
    lemma_cancelling_pair(r, Transform::Rotate270, Transform::Rotate90);
}

} // verus!
