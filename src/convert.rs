//! Byte-valued colour conversions that are exact rational arithmetic.
//!
//! Every output channel is a real value in the byte scale, rounded up and
//! clamped into `[0, 255]`. Each real value here is a quotient of integers,
//! so the rounding is computed exactly.
use vstd::prelude::*;

verus! {

/// The largest of three channels.
pub open spec fn max3(r: u8, g: u8, b: u8) -> u8 {
    if r >= g && r >= b {
        r
    } else if g >= b {
        g
    } else {
        b
    }
}

/// The smallest of three channels.
pub open spec fn min3(r: u8, g: u8, b: u8) -> u8 {
    if r <= g && r <= b {
        r
    } else if g <= b {
        g
    } else {
        b
    }
}

/// `n / d` rounded up, for `d > 0`.
pub open spec fn ceil_div(n: int, d: int) -> int
    recommends
        d > 0,
{
    (n + d - 1) / d
}

/// `v` clamped into `[0, 255]`.
pub open spec fn clamp_byte(v: int) -> int {
    if v < 0 {
        0
    } else if v > 255 {
        255
    } else {
        v
    }
}

/// The byte that the real value `n / d` becomes: rounded up, then clamped.
pub open spec fn quantize(n: int, d: int) -> u8 {
    clamp_byte(ceil_div(n, d)) as u8
}

/// `ceil_div` is the least integer whose multiple of `d` reaches `n`.
pub proof fn lemma_ceil_div_is_least(n: int, d: int)
    requires
        d > 0,
    ensures
        ceil_div(n, d) * d >= n,
        (ceil_div(n, d) - 1) * d < n,
{
    let q = (n + d - 1) / d;
    let m = (n + d - 1) % d;
    vstd::arithmetic::div_mod::lemma_fundamental_div_mod(n + d - 1, d);
    assert(n + d - 1 == d * q + m);
    assert(0 <= m < d);
    assert(q * d == d * q) by (nonlinear_arith);
    assert((q - 1) * d == d * q - d) by (nonlinear_arith);
}

/// The hue of `(r, g, b)` in sixths of the chroma `max - min`: the hue in
/// degrees is `60 * hue_sixths / (max - min)`, which lies in `[0, 360)`.
/// A grey has hue 0.
pub open spec fn hue_sixths(r: u8, g: u8, b: u8) -> int {
    let mx = max3(r, g, b);
    let d = mx - min3(r, g, b);
    if d == 0 {
        0
    } else if r == mx {
        if g >= b {
            g - b
        } else {
            g - b + 6 * d
        }
    } else if g == mx {
        b - r + 2 * d
    } else {
        r - g + 4 * d
    }
}

/// The hue mapped from degrees `[0, 360)` onto a byte by `* 255 / 360`.
pub open spec fn hue_byte(r: u8, g: u8, b: u8) -> u8 {
    let d = max3(r, g, b) - min3(r, g, b);
    if d == 0 {
        0
    } else {
        quantize(255 * hue_sixths(r, g, b), 6 * d)
    }
}

/// HSV: hue, saturation `(max - min) / max` scaled by 255, and the value
/// as the raw byte `max`.
pub open spec fn hsv_of(r: u8, g: u8, b: u8) -> (u8, u8, u8) {
    let mx = max3(r, g, b);
    let d = mx - min3(r, g, b);
    let s = if mx == 0 {
        0u8
    } else {
        quantize(255 * d, mx as int)
    };
    (hue_byte(r, g, b), s, mx)
}

/// HSL: hue, saturation `(max - min) / (1 - |2L - 1|)` and lightness
/// `L = (max + min) / 2`, the last two on `[0, 1]` scaled by 255.
pub open spec fn hsl_of(r: u8, g: u8, b: u8) -> (u8, u8, u8) {
    let mx = max3(r, g, b);
    let mn = min3(r, g, b);
    let d = mx - mn;
    let sum = mx + mn;
    let s = if d == 0 {
        0u8
    } else if sum > 255 {
        quantize(255 * d, 510 - sum)
    } else {
        quantize(255 * d, sum)
    };
    (hue_byte(r, g, b), s, quantize(sum, 2))
}

/// YUV, BT.601 analog form, with the chroma channels offset by 128.
pub open spec fn yuv_of(r: u8, g: u8, b: u8) -> (u8, u8, u8) {
    (
        quantize(299 * r + 587 * g + 114 * b, 1000),
        quantize(128_000_000 - 168_736 * r - 331_264 * g + 500_000 * b, 1_000_000),
        quantize(128_000_000 + 500_000 * r - 418_688 * g - 81_312 * b, 1_000_000),
    )
}

/// HSI given its hue byte: saturation `1 - 3 * min / (r + g + b)` scaled by
/// 255 and intensity `(r + g + b) / 3`. Black gives all zeros.
pub open spec fn hsi_of(r: u8, g: u8, b: u8, hue: u8) -> (u8, u8, u8) {
    let sum = r + g + b;
    if sum == 0 {
        (0u8, 0u8, 0u8)
    } else {
        (hue, quantize(255 * (sum - 3 * min3(r, g, b)), sum), quantize(sum, 3))
    }
}

fn max_of(r: u8, g: u8, b: u8) -> (m: u8)
    ensures
        m == max3(r, g, b),
{
    if r >= g && r >= b {
        r
    } else if g >= b {
        g
    } else {
        b
    }
}

fn min_of(r: u8, g: u8, b: u8) -> (m: u8)
    ensures
        m == min3(r, g, b),
{
    if r <= g && r <= b {
        r
    } else if g <= b {
        g
    } else {
        b
    }
}

/// Rounds `n / d` up and clamps it into a byte.
fn quantize_exec(n: u32, d: u32) -> (q: u8)
    requires
        d > 0,
        n + d <= u32::MAX,
    ensures
        q == quantize(n as int, d as int),
{
    let c = (n + (d - 1)) / d;
    if c > 255 {
        255
    } else {
        c as u8
    }
}

/// The hue of a pixel as a byte.
pub fn rgb_hue_byte(r: u8, g: u8, b: u8) -> (h: u8)
    ensures
        h == hue_byte(r, g, b),
{
    let mx = max_of(r, g, b);
    let mn = min_of(r, g, b);
    if mx == mn {
        return 0;
    }
    let d = (mx - mn) as u32;
    let (r32, g32, b32) = (r as u32, g as u32, b as u32);
    let n: u32 = if r == mx {
        if g >= b {
            g32 - b32
        } else {
            g32 + 6 * d - b32
        }
    } else if g == mx {
        b32 + 2 * d - r32
    } else {
        r32 + 4 * d - g32
    };
    quantize_exec(255 * n, 6 * d)
}

/// Converts a pixel to HSV bytes.
pub fn rgb_to_hsv(r: u8, g: u8, b: u8) -> (c: [u8; 3])
    ensures
        (c[0], c[1], c[2]) == hsv_of(r, g, b),
{
    let mx = max_of(r, g, b);
    let mn = min_of(r, g, b);
    let h = rgb_hue_byte(r, g, b);
    let s = if mx == 0 {
        0
    } else {
        quantize_exec(255 * ((mx - mn) as u32), mx as u32)
    };
    [h, s, mx]
}

/// Converts a pixel to HSL bytes.
pub fn rgb_to_hsl(r: u8, g: u8, b: u8) -> (c: [u8; 3])
    ensures
        (c[0], c[1], c[2]) == hsl_of(r, g, b),
{
    let mx = max_of(r, g, b);
    let mn = min_of(r, g, b);
    let h = rgb_hue_byte(r, g, b);
    let d = (mx - mn) as u32;
    let sum = mx as u32 + mn as u32;
    let s = if d == 0 {
        0
    } else if sum > 255 {
        quantize_exec(255 * d, 510 - sum)
    } else {
        quantize_exec(255 * d, sum)
    };
    [h, s, quantize_exec(sum, 2)]
}

/// Converts a pixel to YUV bytes.
pub fn rgb_to_yuv(r: u8, g: u8, b: u8) -> (c: [u8; 3])
    ensures
        (c[0], c[1], c[2]) == yuv_of(r, g, b),
{
    let (r32, g32, b32) = (r as u32, g as u32, b as u32);
    let y = quantize_exec(299 * r32 + 587 * g32 + 114 * b32, 1000);
    let u = quantize_exec(
        (128_000_000 + 500_000 * b32) - (168_736 * r32 + 331_264 * g32),
        1_000_000,
    );
    let v = quantize_exec(
        (128_000_000 + 500_000 * r32) - (418_688 * g32 + 81_312 * b32),
        1_000_000,
    );
    [y, u, v]
}

/// Assembles HSI bytes from a pixel and its hue byte.
pub fn hsi_from_hue(u8_rgb: [u8; 3], hue: u8) -> (c: [u8; 3])
    ensures
        (c[0], c[1], c[2]) == hsi_of(u8_rgb[0], u8_rgb[1], u8_rgb[2], hue),
{
    let (r, g, b) = (u8_rgb[0], u8_rgb[1], u8_rgb[2]);
    let sum = r as u32 + g as u32 + b as u32;
    if sum == 0 {
        return [0, 0, 0];
    }
    let mn = min_of(r, g, b) as u32;
    [hue, quantize_exec(255 * (sum - 3 * mn), sum), quantize_exec(sum, 3)]
}

} // verus!
