//! 8-bit brightness helpers: conversions, clamping and percentages.

use vstd::prelude::*;

verus! {

/// Brightness value, range 0–255.
pub type Brightness = u8;

/// Logical maximum brightness (used for duty-scale precomputation).
pub const MAX_BRIGHTNESS: u32 = 255;

/// Numerator for the shift-based duty-scale precomputation:
/// `duty_scale = max_duty * DUTY_SCALE_NUM` (65536 / 255 ≈ 257.004).
pub const DUTY_SCALE_NUM: u32 = 257;

/// The brightness nearest to `pct` percent of full scale (halves round up);
/// percentages above 100 count as 100.
pub open spec fn percent_brightness(pct: u8) -> u8 {
    let p = if pct <= 100 { pct as int } else { 100 };
    ((p * 255 + 50) / 100) as u8
}

/// Convert a brightness value to `u32` for arithmetic.
pub fn to_u32(b: Brightness) -> (r: u32)
    ensures
        r == b,
{
    b as u32
}

/// Clamp a `u32` into the valid brightness range.
pub fn from_u32_clamped(v: u32) -> (r: Brightness)
    ensures
        r == (if v <= MAX_BRIGHTNESS { v } else { MAX_BRIGHTNESS }),
{
    if v <= MAX_BRIGHTNESS {
        v as u8
    } else {
        MAX_BRIGHTNESS as u8
    }
}

/// Convert a percentage (0–100) to the nearest brightness value.
///
/// 100 % → 255, 50 % → 128, 0 % → 0.  Integer-only and division-free:
/// `x / 100` is computed as `(x × 5243) >> 19`, exact for every `x` that
/// occurs here.
pub fn from_percent(pct: u8) -> (r: Brightness)
    ensures
        r == percent_brightness(pct),
        pct <= 100 ==> 100 * r <= 255 * pct + 50 < 100 * r + 100,
        pct > 100 ==> r == 255,
{
    proof {
        lemma_percent_nearest(pct);
    }
    let p: u32 = if pct <= 100 { pct as u32 } else { 100 };
    // pct × 255 = (pct << 8) − pct, then +50 for rounding
    let shifted: u32 = p << 8;
    assert(shifted == p * 256) by (bit_vector)
        requires
            shifted == p << 8,
            p <= 100,
    ;
    let x: u32 = shifted - p + 50;
    let q: u32 = (x * 5243) >> 19;
    assert(q == x / 100) by (bit_vector)
        requires
            q == ((x * 5243) as u32) >> 19,
            x <= 25550,
    ;
    q as u8
}

/// The maximum possible brightness value.
pub fn max_value() -> (r: Brightness)
    ensures
        r == MAX_BRIGHTNESS,
{
    u8::MAX
}

/// The minimum possible brightness value (always 0).
pub fn min_value() -> (r: Brightness)
    ensures
        r == 0,
{
    0
}

/// Percentages of 0, 50 and 100 give 0, 128 and 255, every result lies in
/// the brightness range, and a larger percentage never gives a smaller value.
pub proof fn lemma_percent_brightness(a: u8, b: u8)
    requires
        a <= b,
    ensures
        percent_brightness(0) == 0,
        percent_brightness(50) == 128,
        percent_brightness(100) == 255,
        b >= 100 ==> percent_brightness(b) == 255,
        percent_brightness(a) <= percent_brightness(b),
{
    let pa = if a <= 100 { a as int } else { 100 };
    let pb = if b <= 100 { b as int } else { 100 };
    assert((pa * 255 + 50) / 100 <= (pb * 255 + 50) / 100) by (nonlinear_arith)
        requires
            0 <= pa <= pb,
    ;
}

/// The percentage brightness is the nearest value to `pct × 255 / 100`
/// (halves up): `100 r` lies within half a percent-step below or above
/// `255 pct`, for every percentage up to 100; above 100 it is full.
pub proof fn lemma_percent_nearest(pct: u8)
    ensures
        pct <= 100 ==> 100 * percent_brightness(pct) <= 255 * pct + 50 < 100 * percent_brightness(
            pct,
        ) + 100,
        pct > 100 ==> percent_brightness(pct) == 255,
{
}

/// Clamping keeps every in-range value and caps the rest at full brightness.
pub proof fn lemma_clamp_round_trip(b: u8)
    ensures
        (if (b as u32) <= MAX_BRIGHTNESS { b as u32 } else { MAX_BRIGHTNESS }) == b,
{
}

} // verus!
