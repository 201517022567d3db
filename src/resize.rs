use vstd::prelude::*;
use vstd::arithmetic::div_mod::lemma_fundamental_div_mod;

verus! {

/// How the output dimensions are derived from the source dimensions.
#[derive(Debug, Clone, Copy, PartialEq, Eq, Structural)]
pub enum ResizeMode {
    /// Keep the source dimensions.
    Keep,
    /// Scale both axes by a percentage; 100 or more keeps the source dimensions.
    Percentage(u32),
    /// Shrink so that the width is at most this many pixels.
    MaxWidth(u32),
    /// Shrink so that the height is at most this many pixels.
    MaxHeight(u32),
    /// Scale to exactly this width, which may enlarge the image.
    Fixed(u32),
}

/// `n / d` rounded to the nearest integer, halves rounded up.
pub open spec fn round_div(n: nat, d: nat) -> nat
    recommends
        d > 0,
{
    n / d + if 2 * (n % d) >= d { 1nat } else { 0nat }
}

/// Zero becomes one: no planned axis is empty.
pub open spec fn at_least_one(n: nat) -> nat {
    if n == 0 { 1 } else { n }
}

/// Values past the largest `u32` saturate to it.
pub open spec fn saturate_u32(n: nat) -> nat {
    if n > u32::MAX { u32::MAX as nat } else { n }
}

/// The target dimensions for a `w` by `h` source.
pub open spec fn planned_size(w: nat, h: nat, mode: ResizeMode) -> (nat, nat) {
    match mode {
        ResizeMode::Keep => (w, h),
        ResizeMode::Percentage(p) => if p >= 100 {
            (w, h)
        } else {
            (at_least_one(round_div(w * (p as nat), 100)), at_least_one(round_div(h * (p as nat), 100)))
        },
        ResizeMode::MaxWidth(v) => if w <= v {
            (w, h)
        } else {
            (at_least_one(v as nat), at_least_one(round_div(h * (v as nat), w)))
        },
        ResizeMode::MaxHeight(v) => if h <= v {
            (w, h)
        } else {
            (at_least_one(round_div(w * (v as nat), h)), at_least_one(v as nat))
        },
        ResizeMode::Fixed(v) => (at_least_one(v as nat), at_least_one(saturate_u32(round_div((v as nat) * h, w)))),
    }
}

/// The mode that a mode name and value select; unknown names select no resize.
pub open spec fn mode_of_name(name: Seq<char>, value: u32) -> ResizeMode {
    if name == "percentage"@ {
        ResizeMode::Percentage(value)
    } else if name == "maxWidth"@ {
        ResizeMode::MaxWidth(value)
    } else if name == "maxHeight"@ {
        ResizeMode::MaxHeight(value)
    } else if name == "fixed"@ {
        ResizeMode::Fixed(value)
    } else {
        ResizeMode::Keep
    }
}

/// Whether two strings hold the same characters.
pub fn str_equals(s: &str, t: &str) -> (r: bool)
    ensures
        r == (s@ == t@),
{
    let n = s.unicode_len();
    if n != t.unicode_len() {
        return false;
    }
    let mut i: usize = 0;
    while i < n
        invariant
            n == s@.len(),
            n == t@.len(),
            i <= n,
            forall|k: int| 0 <= k < i ==> s@[k] == t@[k],
        decreases n - i,
    {
        if s.get_char(i) != t.get_char(i) {
            return false;
        }
        i = i + 1;
    }
    assert(s@ =~= t@);
    true
}

impl ResizeMode {
    /// Reads a mode name (`percentage`, `maxWidth`, `maxHeight`, `fixed`) and its value.
    pub fn parse(name: &str, value: u32) -> (r: ResizeMode)
        ensures
            r == mode_of_name(name@, value),
    {
        if str_equals(name, "percentage") {
            ResizeMode::Percentage(value)
        } else if str_equals(name, "maxWidth") {
            ResizeMode::MaxWidth(value)
        } else if str_equals(name, "maxHeight") {
            ResizeMode::MaxHeight(value)
        } else if str_equals(name, "fixed") {
            ResizeMode::Fixed(value)
        } else {
            ResizeMode::Keep
        }
    }
}

fn round_div_u64(n: u64, d: u64) -> (r: u64)
    requires
        d > 0,
    ensures
        r == round_div(n as nat, d as nat),
{
    let q = n / d;
    let rem = n % d;
    proof {
        lemma_fundamental_div_mod(n as int, d as int);
    }
    if rem >= d - rem {
        assert(q < u64::MAX) by (nonlinear_arith)
            requires
                n == d * q + rem,
                rem > 0,
                d > 0,
                n <= u64::MAX,
        ;
        q + 1
    } else {
        q
    }
}

fn at_least_one_u32(n: u64) -> (r: u32)
    requires
        n <= u32::MAX,
    ensures
        r == at_least_one(n as nat),
{
    if n == 0 { 1 } else { n as u32 }
}

/// Computes the target dimensions for a `width` by `height` image under `mode`.
pub fn plan_resize(width: u32, height: u32, mode: ResizeMode) -> (r: (u32, u32))
    requires
        width > 0,
        height > 0,
    ensures
        (r.0 as nat, r.1 as nat) == planned_size(width as nat, height as nat, mode),
{
    let w = width as u64;
    let h = height as u64;
    match mode {
        ResizeMode::Keep => (width, height),
        ResizeMode::Percentage(p) => {
            if p >= 100 {
                (width, height)
            } else {
                let pp = p as u64;
                assert(w * pp < u64::MAX && h * pp < u64::MAX) by (nonlinear_arith)
                    requires
                        w <= u32::MAX,
                        h <= u32::MAX,
                        pp < 100,
                ;
                let nw = round_div_u64(w * pp, 100);
                let nh = round_div_u64(h * pp, 100);
                proof {
                    lemma_round_div_shrinks(w as nat, pp as nat, 100);
                    lemma_round_div_shrinks(h as nat, pp as nat, 100);
                }
                (at_least_one_u32(nw), at_least_one_u32(nh))
            }
        },
        ResizeMode::MaxWidth(v) => {
            if width <= v {
                (width, height)
            } else {
                assert(h * (v as u64) <= u64::MAX) by (nonlinear_arith)
                    requires
                        h <= u32::MAX,
                        v <= u32::MAX,
                ;
                let nh = round_div_u64(h * (v as u64), w);
                proof {
                    lemma_round_div_shrinks(h as nat, v as nat, w as nat);
                }
                (at_least_one_u32(v as u64), at_least_one_u32(nh))
            }
        },
        ResizeMode::MaxHeight(v) => {
            if height <= v {
                (width, height)
            } else {
                assert(w * (v as u64) <= u64::MAX) by (nonlinear_arith)
                    requires
                        w <= u32::MAX,
                        v <= u32::MAX,
                ;
                let nw = round_div_u64(w * (v as u64), h);
                proof {
                    lemma_round_div_shrinks(w as nat, v as nat, h as nat);
                }
                (at_least_one_u32(nw), at_least_one_u32(v as u64))
            }
        },
        ResizeMode::Fixed(v) => {
            assert((v as u64) * h <= u64::MAX) by (nonlinear_arith)
                requires
                    h <= u32::MAX,
                    v <= u32::MAX,
            ;
            let nh = round_div_u64((v as u64) * h, w);
            let sat: u64 = if nh > u32::MAX as u64 { u32::MAX as u64 } else { nh };
            (at_least_one_u32(v as u64), at_least_one_u32(sat))
        },
    }
}

/// Scaling `a` by `b / d` with `b < d` and rounding does not exceed `a`.
pub proof fn lemma_round_div_shrinks(a: nat, b: nat, d: nat)
    requires
        b < d,
    ensures
        round_div(a * b, d) <= a,
{
    let n = a * b;
    let q = n / d;
    let rem = n % d;
    lemma_fundamental_div_mod(n as int, d as int);
    if a == 0 {
        assert(n == 0);
        assert(q == 0 && rem == 0) by (nonlinear_arith)
            requires
                n == d * q + rem,
                n == 0,
                0 <= rem < d,
                q >= 0,
        ;
    } else {
        assert(q < a) by (nonlinear_arith)
            requires
                n == a * b,
                n == d * q + rem,
                b < d,
                a > 0,
                rem >= 0,
                q >= 0,
        ;
    }
}

/// Resize planning never enlarges an image under a percentage, maximum-width or
/// maximum-height mode, and under every mode both planned dimensions are at least one.
pub proof fn lemma_plan_bounds(w: nat, h: nat, mode: ResizeMode)
    requires
        w > 0,
        h > 0,
    ensures
        planned_size(w, h, mode).0 >= 1,
        planned_size(w, h, mode).1 >= 1,
        !(mode is Fixed) ==> planned_size(w, h, mode).0 <= w && planned_size(w, h, mode).1 <= h,
{
    match mode {
        ResizeMode::Percentage(p) => {
            if p < 100 {
                lemma_round_div_shrinks(w, p as nat, 100);
                lemma_round_div_shrinks(h, p as nat, 100);
            }
        },
        ResizeMode::MaxWidth(v) => {
            if w > v {
                lemma_round_div_shrinks(h, v as nat, w);
            }
        },
        ResizeMode::MaxHeight(v) => {
            if h > v {
                lemma_round_div_shrinks(w, v as nat, h);
            }
        },
        _ => {},
    }
}

} // verus!
