use vstd::prelude::*;

verus! {

/// The container formats this library reads and writes.
#[derive(Debug, Clone, Copy, PartialEq, Eq, Structural)]
pub enum InputFormat {
    Png,
    Jpeg,
    Webp,
    Avif,
}

/// The lowercase name of a format, as `detect_format` reports it.
pub open spec fn format_name(f: InputFormat) -> Seq<char> {
    match f {
        InputFormat::Png => "png"@,
        InputFormat::Jpeg => "jpeg"@,
        InputFormat::Webp => "webp"@,
        InputFormat::Avif => "avif"@,
    }
}

/// `c` is `l`, or the ASCII uppercase form of `l`.
pub open spec fn char_matches_lower(c: char, l: char) -> bool {
    c == l || ('A' <= c && c <= 'Z' && (c as u32) + 32 == (l as u32))
}

/// `s` equals the lowercase word `lit` when ASCII case is ignored.
pub open spec fn name_matches(s: Seq<char>, lit: Seq<char>) -> bool {
    s.len() == lit.len() && forall|k: int| 0 <= k < s.len() ==> char_matches_lower(#[trigger] s[k], lit[k])
}

/// The format that a name stands for, ignoring ASCII case.
pub open spec fn format_of_name(s: Seq<char>) -> Option<InputFormat> {
    if name_matches(s, "png"@) {
        Some(InputFormat::Png)
    } else if name_matches(s, "jpeg"@) || name_matches(s, "jpg"@) {
        Some(InputFormat::Jpeg)
    } else if name_matches(s, "webp"@) {
        Some(InputFormat::Webp)
    } else if name_matches(s, "avif"@) {
        Some(InputFormat::Avif)
    } else {
        None
    }
}

pub open spec fn has_png_signature(b: Seq<u8>) -> bool {
    b.len() >= 8 && b[0] == 0x89u8 && b[1] == 0x50u8 && b[2] == 0x4eu8 && b[3] == 0x47u8
        && b[4] == 0x0du8 && b[5] == 0x0au8 && b[6] == 0x1au8 && b[7] == 0x0au8
}

pub open spec fn has_jpeg_signature(b: Seq<u8>) -> bool {
    b.len() >= 3 && b[0] == 0xffu8 && b[1] == 0xd8u8 && b[2] == 0xffu8
}

/// The last two bytes are the JPEG end-of-image marker `FF D9`.
pub open spec fn ends_with_jpeg_eoi(b: Seq<u8>) -> bool {
    b.len() >= 4 && b[b.len() - 2] == 0xffu8 && b[b.len() - 1] == 0xd9u8
}

/// Four bytes at `at` spell the ASCII characters `a b c d`.
pub open spec fn tag_at(b: Seq<u8>, at: int, t: Seq<u8>) -> bool {
    &&& t.len() == 4
    &&& at + 4 <= b.len()
    &&& b[at] == t[0] && b[at + 1] == t[1] && b[at + 2] == t[2] && b[at + 3] == t[3]
}

pub open spec fn riff_tag() -> Seq<u8> { seq![0x52u8, 0x49u8, 0x46u8, 0x46u8] }
pub open spec fn webp_tag() -> Seq<u8> { seq![0x57u8, 0x45u8, 0x42u8, 0x50u8] }
pub open spec fn ftyp_tag() -> Seq<u8> { seq![0x66u8, 0x74u8, 0x79u8, 0x70u8] }
pub open spec fn avif_tag() -> Seq<u8> { seq![0x61u8, 0x76u8, 0x69u8, 0x66u8] }
pub open spec fn avis_tag() -> Seq<u8> { seq![0x61u8, 0x76u8, 0x69u8, 0x73u8] }

pub open spec fn has_webp_signature(b: Seq<u8>) -> bool {
    b.len() >= 12 && tag_at(b, 0, riff_tag()) && tag_at(b, 8, webp_tag())
}

pub open spec fn has_avif_signature(b: Seq<u8>) -> bool {
    b.len() >= 28 && tag_at(b, 4, ftyp_tag()) && (tag_at(b, 8, avif_tag()) || tag_at(b, 8, avis_tag()))
}

/// The container format that the leading bytes announce, checked in a fixed priority order.
pub open spec fn detected_format(b: Seq<u8>) -> Option<InputFormat> {
    if has_png_signature(b) {
        Some(InputFormat::Png)
    } else if has_jpeg_signature(b) {
        Some(InputFormat::Jpeg)
    } else if has_webp_signature(b) {
        Some(InputFormat::Webp)
    } else if has_avif_signature(b) {
        Some(InputFormat::Avif)
    } else {
        None
    }
}

fn bytes_at(b: &[u8], at: usize, t0: u8, t1: u8, t2: u8, t3: u8) -> (r: bool)
    requires
        at + 4 <= b@.len(),
    ensures
        r == tag_at(b@, at as int, seq![t0, t1, t2, t3]),
{
    b[at] == t0 && b[at + 1] == t1 && b[at + 2] == t2 && b[at + 3] == t3
}

/// Classifies bytes by their magic prefix.
pub fn sniff_format(bytes: &[u8]) -> (r: Option<InputFormat>)
    ensures
        r == detected_format(bytes@),
{
    let n = bytes.len();
    if n >= 8 && bytes[0] == 0x89 && bytes[1] == 0x50 && bytes[2] == 0x4e && bytes[3] == 0x47
        && bytes[4] == 0x0d && bytes[5] == 0x0a && bytes[6] == 0x1a && bytes[7] == 0x0a {
        return Some(InputFormat::Png);
    }
    if n >= 3 && bytes[0] == 0xff && bytes[1] == 0xd8 && bytes[2] == 0xff {
        return Some(InputFormat::Jpeg);
    }
    if n >= 12 && bytes_at(bytes, 0, 0x52, 0x49, 0x46, 0x46) && bytes_at(bytes, 8, 0x57, 0x45, 0x42, 0x50) {
        return Some(InputFormat::Webp);
    }
    if n >= 28 && bytes_at(bytes, 4, 0x66, 0x74, 0x79, 0x70) && (bytes_at(bytes, 8, 0x61, 0x76, 0x69, 0x66)
        || bytes_at(bytes, 8, 0x61, 0x76, 0x69, 0x73)) {
        return Some(InputFormat::Avif);
    }
    None
}

/// The name of the format that the bytes announce, if any.
pub fn detect_format(bytes: &[u8]) -> (r: Option<&'static str>)
    ensures
        match detected_format(bytes@) {
            Some(f) => r is Some && r->0@ == format_name(f),
            None => r is None,
        },
{
    match sniff_format(bytes) {
        Some(f) => Some(f.as_str()),
        None => None,
    }
}

impl InputFormat {
    /// The lowercase name of this format.
    pub fn as_str(&self) -> (r: &'static str)
        ensures
            r@ == format_name(*self),
    {
        match self {
            InputFormat::Png => "png",
            InputFormat::Jpeg => "jpeg",
            InputFormat::Webp => "webp",
            InputFormat::Avif => "avif",
        }
    }

    /// Parses a format name, ignoring ASCII case; `jpg` and `jpeg` both name JPEG.
    pub fn from_str(value: &str) -> (r: Option<InputFormat>)
        ensures
            r == format_of_name(value@),
    {
        if lower_equals(value, "png") {
            Some(InputFormat::Png)
        } else if lower_equals(value, "jpeg") || lower_equals(value, "jpg") {
            Some(InputFormat::Jpeg)
        } else if lower_equals(value, "webp") {
            Some(InputFormat::Webp)
        } else if lower_equals(value, "avif") {
            Some(InputFormat::Avif)
        } else {
            None
        }
    }
}

/// Whether `s` equals the lowercase word `lit` when ASCII case is ignored.
fn lower_equals(s: &str, lit: &str) -> (r: bool)
    ensures
        r == name_matches(s@, lit@),
{
    let n = s.unicode_len();
    if n != lit.unicode_len() {
        return false;
    }
    let mut i: usize = 0;
    while i < n
        invariant
            n == s@.len(),
            n == lit@.len(),
            i <= n,
            forall|k: int| 0 <= k < i ==> char_matches_lower(s@[k], lit@[k]),
        decreases n - i,
    {
        let c = s.get_char(i);
        let l = lit.get_char(i);
        if !(c == l || ('A' <= c && c <= 'Z' && (c as u32) + 32 == (l as u32))) {
            return false;
        }
        i = i + 1;
    }
    true
}

} // verus!
