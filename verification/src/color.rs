//! Resource color generation.
//!
//! Hues are fixed-point fractions with denominator 1,000,000.  Starting from a
//! seed hue, each successive resource advances the hue by the golden-ratio
//! conjugate (0.618034), wrapping modulo 1, and the hue is converted to a
//! 24-bit RGB color at saturation 1/2 and value 1/2 by the standard sector
//! conversion.  Each resource receives a filled "closed" style rule and an
//! outline-only "open" style rule carrying that color.

use crate::text::{append_dec, append_hex, spec_dec, spec_hex};
use vstd::prelude::*;
use vstd::string::StringExecFns;

verus! {

/// Denominator of hue fractions: a hue `h` stands for `h / 1_000_000`.
pub const HUE_DENOM: u32 = 1_000_000;

/// The golden-ratio conjugate as a hue step, `0.618034`.
pub const HUE_STEP: u32 = 618_034;

/// Relies on `rand::random`: an arbitrary pseudo-random draw; nothing is
/// assumed about the value beyond its type.
#[verifier::external_body]
fn random_u32() -> u32 {
    rand::random::<u32>()
}

/// A fresh hue seed in `[0, HUE_DENOM)`, drawn from the process-wide
/// random-number generator.
pub fn random_hue_seed() -> (r: u32)
    ensures
        r < HUE_DENOM,
{
    random_u32() % HUE_DENOM
}

/// The hue of resource `k`: the seed advanced `k` times by `HUE_STEP`,
/// wrapping modulo `HUE_DENOM`.
pub open spec fn spec_hue(seed: int, k: int) -> int
    decreases k,
{
    if k <= 0 {
        seed
    } else {
        (spec_hue(seed, k - 1) + HUE_STEP) % (HUE_DENOM as int)
    }
}

/// The 24-bit RGB value of hue `h` (a fraction over `HUE_DENOM`) at
/// saturation 1/2 and value 1/2: sector index `6h` truncated, edge channels
/// from the fractional remainder, each channel scaled by 256 and truncated.
pub open spec fn spec_hsv_rgb(h: int) -> int {
    let sector = 6 * h / (HUE_DENOM as int);
    let f = 6 * h % (HUE_DENOM as int);
    let v: int = 128;
    let p: int = 64;
    let q = (128_000_000 - 64 * f) / (HUE_DENOM as int);
    let t = (64_000_000 + 64 * f) / (HUE_DENOM as int);
    if sector == 0 {
        v * 65536 + t * 256 + p
    } else if sector == 1 {
        q * 65536 + v * 256 + p
    } else if sector == 2 {
        p * 65536 + v * 256 + t
    } else if sector == 3 {
        p * 65536 + q * 256 + v
    } else if sector == 4 {
        t * 65536 + p * 256 + v
    } else {
        v * 65536 + p * 256 + q
    }
}

/// Converts a fixed-point hue at saturation 1/2 and value 1/2 to 24-bit RGB.
pub fn hsv_to_rgb(h: u32) -> (r: u32)
    requires
        h < HUE_DENOM,
    ensures
        r == spec_hsv_rgb(h as int),
        r < 0x1000000,
{
    let h6: u64 = 6 * (h as u64);
    let sector: u64 = h6 / 1_000_000;
    let f: u64 = h6 % 1_000_000;
    let v: u64 = 128;
    let p: u64 = 64;
    let q: u64 = (128_000_000 - 64 * f) / 1_000_000;
    let t: u64 = (64_000_000 + 64 * f) / 1_000_000;
    let (red, green, blue) = if sector == 0 {
        (v, t, p)
    } else if sector == 1 {
        (q, v, p)
    } else if sector == 2 {
        (p, v, t)
    } else if sector == 3 {
        (p, q, v)
    } else if sector == 4 {
        (t, p, v)
    } else {
        (v, p, q)
    };
    (red * 65536 + green * 256 + blue) as u32
}

/// The views of a sequence of strings.
pub open spec fn spec_strings_view(v: Seq<String>) -> Seq<Seq<char>> {
    v.map_values(|s: String| s@)
}

/// The "closed" (filled) style rule for resource `k` with color `rgb`.
pub open spec fn spec_closed_style(k: int, rgb: int) -> Seq<char> {
    ".resource-"@ + spec_dec(k as nat) + "-closed{stroke-width:1; stroke:#"@ + spec_hex(
        rgb as nat,
        6,
    ) + "; fill:#"@ + spec_hex(rgb as nat, 6) + ";}"@
}

/// The "open" (outline-only) style rule for resource `k` with color `rgb`.
pub open spec fn spec_open_style(k: int, rgb: int) -> Seq<char> {
    ".resource-"@ + spec_dec(k as nat) + "-open{stroke-width:2; stroke:#"@ + spec_hex(
        rgb as nat,
        6,
    ) + "; fill:none;}"@
}

/// The style rules of the first `k` resources: a closed and an open rule per
/// resource, hues advancing from the seed.
pub open spec fn spec_resource_styles(seed: int, k: int) -> Seq<Seq<char>>
    decreases k,
{
    if k <= 0 {
        Seq::empty()
    } else {
        spec_resource_styles(seed, k - 1).push(
            spec_closed_style(k - 1, spec_hsv_rgb(spec_hue(seed, k - 1))),
        ).push(spec_open_style(k - 1, spec_hsv_rgb(spec_hue(seed, k - 1))))
    }
}

/// Builds the closed style rule of resource `k` with color `rgb`.
fn closed_style(k: u64, rgb: u32) -> (r: String)
    requires
        rgb < 0x1000000,
    ensures
        r@ == spec_closed_style(k as int, rgb as int),
{
    let mut s = String::new();
    s.append(".resource-");
    append_dec(&mut s, k);
    s.append("-closed{stroke-width:1; stroke:#");
    append_hex(&mut s, rgb as u64, 6);
    s.append("; fill:#");
    append_hex(&mut s, rgb as u64, 6);
    s.append(";}");
    proof {
        assert(s@ =~= spec_closed_style(k as int, rgb as int));
    }
    s
}

/// Builds the open style rule of resource `k` with color `rgb`.
fn open_style(k: u64, rgb: u32) -> (r: String)
    requires
        rgb < 0x1000000,
    ensures
        r@ == spec_open_style(k as int, rgb as int),
{
    let mut s = String::new();
    s.append(".resource-");
    append_dec(&mut s, k);
    s.append("-open{stroke-width:2; stroke:#");
    append_hex(&mut s, rgb as u64, 6);
    s.append("; fill:none;}");
    proof {
        assert(s@ =~= spec_open_style(k as int, rgb as int));
    }
    s
}

/// Appends to `styles` one closed and one open style rule per resource,
/// coloring `count` resources from the hue seed.
pub fn push_resource_styles(styles: &mut Vec<String>, seed: u32, count: usize)
    requires
        seed < HUE_DENOM,
        old(styles)@.len() + 2 * count <= usize::MAX,
    ensures
        final(styles)@.len() == old(styles)@.len() + 2 * count,
        spec_strings_view(final(styles)@) == spec_strings_view(old(styles)@)
            + spec_resource_styles(seed as int, count as int),
{
    let mut h: u32 = seed;
    let mut k: usize = 0;
    while k < count
        invariant
            k <= count,
            h < HUE_DENOM,
            h == spec_hue(seed as int, k as int),
            styles@.len() == old(styles)@.len() + 2 * k,
            spec_strings_view(styles@) =~= spec_strings_view(old(styles)@)
                + spec_resource_styles(seed as int, k as int),
        decreases count - k,
    {
        let ghost prev = styles@;
        let rgb = hsv_to_rgb(h);
        let closed = closed_style(k as u64, rgb);
        let opened = open_style(k as u64, rgb);
        styles.push(closed);
        styles.push(opened);
        proof {
            assert(styles@ =~= prev.push(closed).push(opened));
            assert(spec_strings_view(styles@) =~= spec_strings_view(prev).push(closed@).push(
                opened@,
            ));
            assert(spec_strings_view(styles@) =~= spec_strings_view(old(styles)@)
                + spec_resource_styles(seed as int, k + 1));
        }
        h = (h + HUE_STEP) % HUE_DENOM;
        k = k + 1;
    }
}

} // verus!
