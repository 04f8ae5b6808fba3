//! Gamma modes: linear light and the sRGB transfer curve.
use vstd::prelude::*;
use crate::chan::is_max;
use crate::srgb::{
    decode16_knot_lookup, decode16_knots, decode8_lookup, decode8_table, encode16_knot_lookup,
    encode16_knots, encode16_low_knots, encode16_low_lookup, encode8_lookup, encode8_table,
    srgb_decoded, srgb_encoded,
};

verus! {

/// Linear interpolation between knots `lo` and `hi` that lie `n` apart, at
/// offset `f` from `lo`, rounded to nearest.
pub open spec fn interpolate(lo: int, hi: int, f: int, n: int) -> int {
    if hi >= lo {
        lo + ((hi - lo) * f + n / 2) / n
    } else {
        lo
    }
}

/// sRGB encoding of linear value `l` of a channel with maximum `m`.
///
/// Eight-bit channels are encoded exactly (see `srgb_encoded`).  Sixteen-bit
/// channels are exact at the knots (every 16 values below 4096, every 257
/// above) and interpolated between them.
pub open spec fn encode_spec(l: int, m: int) -> int {
    if m == 255 {
        encode8_table(l)
    } else if l < 4096 {
        interpolate(encode16_low_knots(l / 16), encode16_low_knots(l / 16 + 1), l % 16, 16)
    } else if l % 257 == 0 {
        encode16_knots(l / 257)
    } else {
        interpolate(encode16_knots(l / 257), encode16_knots(l / 257 + 1), l % 257, 257)
    }
}

/// Linear value of sRGB value `s` of a channel with maximum `m`.
///
/// Eight-bit channels are decoded exactly (see `srgb_decoded`).  Sixteen-bit
/// channels are exact at every 257th value and interpolated between.
pub open spec fn decode_spec(s: int, m: int) -> int {
    if m == 255 {
        decode8_table(s)
    } else if s % 257 == 0 {
        decode16_knots(s / 257)
    } else {
        interpolate(decode16_knots(s / 257), decode16_knots(s / 257 + 1), s % 257, 257)
    }
}

/// sRGB values of eight bits whose linear value of eight bits is too coarse
/// for them to come back within one: all lie below 49.
pub open spec fn srgb8_coarse(x: int) -> bool {
    ||| 2 <= x <= 11
    ||| 15 <= x <= 20
    ||| 24 <= x <= 26
    ||| 30 <= x <= 32
    ||| x == 36
    ||| x == 40
    ||| x == 44
    ||| x == 48
}

/// Decoding an eight-bit sRGB value to linear light and encoding it again
/// gives it back within one, but for the dark values of `srgb8_coarse`,
/// which the linear channel cannot tell apart.
pub proof fn lemma_srgb8_round_trip(x: int)
    requires
        0 <= x <= 255,
        !srgb8_coarse(x),
    ensures
        -1 <= encode_spec(decode_spec(x, 255), 255) - x <= 1,
{
}

/// Interpolate between two knots.
fn interpolate_value(lo: u32, hi: u32, f: u32, n: u32) -> (r: u32)
    requires
        lo <= 65535,
        hi <= 65535,
        f < n,
        n == 16 || n == 257,
    ensures
        r == interpolate(lo as int, hi as int, f as int, n as int),
        r <= 65535,
        lo <= hi ==> lo <= r <= hi,
{
    if hi >= lo {
        proof {
            assert((hi - lo) * f <= (hi - lo) * (n - 1)) by (nonlinear_arith)
                requires f < n, hi >= lo;
            assert(((hi - lo) * f + n / 2) / (n as int) <= hi - lo) by (nonlinear_arith)
                requires (hi - lo) * f <= (hi - lo) * (n - 1), n > 1, hi >= lo;
        }
        lo + ((hi - lo) * f + n / 2) / n
    } else {
        lo
    }
}

/// Encode linear value `l` of a channel with maximum `m` with the sRGB curve.
pub fn encode_srgb(l: u32, m: u32) -> (s: u32)
    requires
        is_max(m as int),
        l <= m,
    ensures
        s == encode_spec(l as int, m as int),
        s <= m,
        m == 255 ==> srgb_encoded(l as int, s as int, 255),
        m == 65535 && (if l < 4096 { l % 16 == 0 } else { l % 257 == 0 })
            ==> srgb_encoded(l as int, s as int, 65535),
{
    if m == 255 {
        encode8_lookup(l as u8) as u32
    } else if l < 4096 {
        let k: u16 = (l / 16) as u16;
        let lo = encode16_low_lookup(k) as u32;
        let hi = encode16_low_lookup(k + 1) as u32;
        if l % 16 == 0 {
            proof {
                assert(interpolate(lo as int, hi as int, 0, 16) == lo);
                assert(k as int * 16 == l);
            }
        }
        interpolate_value(lo, hi, l % 16, 16)
    } else if l % 257 == 0 {
        encode16_knot_lookup((l / 257) as u8) as u32
    } else {
        let k: u8 = (l / 257) as u8;
        let lo = encode16_knot_lookup(k) as u32;
        let hi = encode16_knot_lookup(k + 1) as u32;
        interpolate_value(lo, hi, l % 257, 257)
    }
}

/// Linear value of sRGB value `s` of a channel with maximum `m`.
pub fn decode_srgb(s: u32, m: u32) -> (l: u32)
    requires
        is_max(m as int),
        s <= m,
    ensures
        l == decode_spec(s as int, m as int),
        l <= m,
        m == 255 ==> srgb_decoded(s as int, l as int, 255),
        m == 65535 && s % 257 == 0 ==> srgb_decoded(s as int, l as int, 65535),
{
    if m == 255 {
        decode8_lookup(s as u8) as u32
    } else if s % 257 == 0 {
        decode16_knot_lookup((s / 257) as u8) as u32
    } else {
        let k: u8 = (s / 257) as u8;
        let lo = decode16_knot_lookup(k) as u32;
        let hi = decode16_knot_lookup(k + 1) as u32;
        interpolate_value(lo, hi, s % 257, 257)
    }
}

/// How channel values are encoded.
pub trait GammaMode: Copy {
    /// Channels are encoded with the sRGB curve; otherwise they are linear.
    spec fn srgb() -> bool;

    /// Channels are encoded with the sRGB curve.
    fn is_srgb() -> (b: bool)
        ensures
            b == Self::srgb(),
    ;
}

/// Channels proportional to light intensity.
#[derive(Clone, Copy, Debug, Default, PartialEq, Eq, Structural)]
pub struct Linear;

/// Channels encoded with the sRGB transfer curve.
#[derive(Clone, Copy, Debug, Default, PartialEq, Eq, Structural)]
pub struct Srgb;

impl GammaMode for Linear {
    open spec fn srgb() -> bool {
        false
    }

    fn is_srgb() -> (b: bool) {
        false
    }
}

impl GammaMode for Srgb {
    open spec fn srgb() -> bool {
        true
    }

    fn is_srgb() -> (b: bool) {
        true
    }
}

/// Channel value in linear light under gamma `srgb`.
pub open spec fn to_linear_spec(c: int, m: int, srgb: bool) -> int {
    if srgb {
        decode_spec(c, m)
    } else {
        c
    }
}

/// Channel value encoded under gamma `srgb` from linear light.
pub open spec fn from_linear_spec(c: int, m: int, srgb: bool) -> int {
    if srgb {
        encode_spec(c, m)
    } else {
        c
    }
}

/// Convert channel value `c` to linear light.
pub fn to_linear(c: u32, m: u32, srgb: bool) -> (r: u32)
    requires
        is_max(m as int),
        c <= m,
    ensures
        r == to_linear_spec(c as int, m as int, srgb),
        r <= m,
{
    if srgb {
        decode_srgb(c, m)
    } else {
        c
    }
}

/// Convert channel value `c` from linear light.
pub fn from_linear(c: u32, m: u32, srgb: bool) -> (r: u32)
    requires
        is_max(m as int),
        c <= m,
    ensures
        r == from_linear_spec(c as int, m as int, srgb),
        r <= m,
{
    if srgb {
        encode_srgb(c, m)
    } else {
        c
    }
}

} // verus!
