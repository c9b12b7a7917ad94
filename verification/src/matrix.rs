//! The BT.709 limited-range colour matrix, in exact arithmetic.
//!
//! The matrix is
//!
//! ```text
//! U' = U - 128;  V' = V - 128
//! R = Y + 1.5748   * V'
//! G = Y - 0.187324 * U' - 0.468124 * V'
//! B = Y + 1.8556   * U'
//! ```
//!
//! Every coefficient is a decimal with at most six places, so each channel is
//! held as an integer count of millionths. A channel is clamped to `[0, 255]`
//! and then rounded to the nearest integer; a value that lies exactly halfway
//! between two integers goes to the larger one (after clamping no value is
//! negative, so this is rounding half away from zero).

use vstd::prelude::*;

verus! {

/// Millionths in one unit of a channel.
pub const SCALE: i64 = 1_000_000;

/// The share of `V'` in red: 1.5748.
pub const RED_FROM_V: i64 = 1_574_800;

/// The share of `U'` in green: -0.187324.
pub const GREEN_FROM_U: i64 = -187_324;

/// The share of `V'` in green: -0.468124.
pub const GREEN_FROM_V: i64 = -468_124;

/// The share of `U'` in blue: 1.8556.
pub const BLUE_FROM_U: i64 = 1_855_600;

/// A chroma sample moved to be centred on zero.
pub open spec fn centered(c: u8) -> int {
    c as int - 128
}

/// Red before clamping and rounding, in millionths.
pub open spec fn red_scaled(y: u8, v: u8) -> int {
    SCALE * y + RED_FROM_V * centered(v)
}

/// Green before clamping and rounding, in millionths.
pub open spec fn green_scaled(y: u8, u: u8, v: u8) -> int {
    SCALE * y + GREEN_FROM_U * centered(u) + GREEN_FROM_V * centered(v)
}

/// Blue before clamping and rounding, in millionths.
pub open spec fn blue_scaled(y: u8, u: u8) -> int {
    SCALE * y + BLUE_FROM_U * centered(u)
}

/// A value in millionths held to the range of a channel, `[0, 255]`.
pub open spec fn clamped(scaled: int) -> int {
    if scaled < 0 {
        0
    } else if scaled > 255 * SCALE {
        255 * SCALE
    } else {
        scaled
    }
}

/// The integer nearest to `scaled` millionths, halves going up.
pub open spec fn rounded(scaled: int) -> int {
    (2 * scaled + SCALE) / (2 * SCALE)
}

/// The 8-bit channel for a value in millionths: clamped, then rounded.
pub open spec fn quantized(scaled: int) -> u8 {
    rounded(clamped(scaled)) as u8
}

/// The red channel of the sample `(y, _, v)`.
pub open spec fn red_channel(y: u8, v: u8) -> u8 {
    quantized(red_scaled(y, v))
}

/// The green channel of the sample `(y, u, v)`.
pub open spec fn green_channel(y: u8, u: u8, v: u8) -> u8 {
    quantized(green_scaled(y, u, v))
}

/// The blue channel of the sample `(y, u, _)`.
pub open spec fn blue_channel(y: u8, u: u8) -> u8 {
    quantized(blue_scaled(y, u))
}

/// The `R G B` triple of the sample `(y, u, v)`.
pub open spec fn rgb_of(y: u8, u: u8, v: u8) -> Seq<u8> {
    seq![red_channel(y, v), green_channel(y, u, v), blue_channel(y, u)]
}

/// `rounded` is rounding to nearest: the result lies within half a unit of
/// the value, and a value exactly halfway between two integers goes up.
pub proof fn lemma_rounded_is_nearest(scaled: int)
    ensures
        2 * (rounded(scaled) * SCALE - scaled) <= SCALE,
        2 * (scaled - rounded(scaled) * SCALE) < SCALE,
{
    let n = 2 * scaled + 1_000_000;
    assert(n == 2_000_000 * (n / 2_000_000) + n % 2_000_000);
}

/// A whole number of units rounds to itself.
pub proof fn lemma_rounded_whole(units: int)
    ensures
        rounded(units * SCALE) == units,
{
    let n = 2_000_000 * units + 1_000_000;
    assert(n == 2_000_000 * (n / 2_000_000) + n % 2_000_000);
}

/// A clamped value rounds into the range of a byte, so `quantized` loses
/// nothing when it narrows.
pub proof fn lemma_quantized_in_range(scaled: int)
    ensures
        0 <= rounded(clamped(scaled)) <= 255,
        quantized(scaled) == rounded(clamped(scaled)),
        scaled <= 0 ==> quantized(scaled) == 0,
        scaled >= 255 * SCALE ==> quantized(scaled) == 255,
{
    let n = 2 * clamped(scaled) + 1_000_000;
    assert(n == 2_000_000 * (n / 2_000_000) + n % 2_000_000);
}

/// Clamping and rounding keep the order of two values.
pub proof fn lemma_quantized_monotonic(a: int, b: int)
    requires
        a <= b,
    ensures
        quantized(a) <= quantized(b),
{
    lemma_quantized_in_range(a);
    lemma_quantized_in_range(b);
    let m = 2 * clamped(a) + 1_000_000;
    let n = 2 * clamped(b) + 1_000_000;
    assert(m == 2_000_000 * (m / 2_000_000) + m % 2_000_000);
    assert(n == 2_000_000 * (n / 2_000_000) + n % 2_000_000);
}

/// Centred chroma adds nothing: a grey sample has all three channels equal
/// to its luma.
pub proof fn lemma_grey_is_luma(y: u8)
    ensures
        red_channel(y, 128) == y,
        green_channel(y, 128, 128) == y,
        blue_channel(y, 128) == y,
{
    lemma_rounded_whole(y as int);
}

/// Clamps a value in millionths to `[0, 255]` and rounds it to the nearest
/// integer, halves going up.
pub fn quantize(scaled: i64) -> (c: u8)
    ensures
        c == quantized(scaled as int),
{
    if scaled <= 0 {
        0
    } else if scaled >= 255 * SCALE {
        255
    } else {
        let units: i64 = (2 * scaled + SCALE) / (2 * SCALE);
        units as u8
    }
}

/// The red channel of a sample: `Y + 1.5748 * (V - 128)`, clamped and rounded.
pub fn red(y: u8, v: u8) -> (c: u8)
    ensures
        c == red_channel(y, v),
{
    let luma: i64 = y as i64;
    let cr: i64 = v as i64 - 128;
    quantize(SCALE * luma + RED_FROM_V * cr)
}

/// The green channel of a sample:
/// `Y - 0.187324 * (U - 128) - 0.468124 * (V - 128)`, clamped and rounded.
pub fn green(y: u8, u: u8, v: u8) -> (c: u8)
    ensures
        c == green_channel(y, u, v),
{
    let luma: i64 = y as i64;
    let cb: i64 = u as i64 - 128;
    let cr: i64 = v as i64 - 128;
    quantize(SCALE * luma + GREEN_FROM_U * cb + GREEN_FROM_V * cr)
}

/// The blue channel of a sample: `Y + 1.8556 * (U - 128)`, clamped and rounded.
pub fn blue(y: u8, u: u8) -> (c: u8)
    ensures
        c == blue_channel(y, u),
{
    let luma: i64 = y as i64;
    let cb: i64 = u as i64 - 128;
    quantize(SCALE * luma + BLUE_FROM_U * cb)
}

} // verus!
