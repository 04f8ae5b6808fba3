//! The hue, whiteness, blackness color model.
use vstd::prelude::*;
use crate::alpha::{AChannel, AlphaMode};
use crate::chan::{add_spec, div_spec, div_value, is_max, mul_spec, mul_value, sub_spec, Channel};
use crate::gamma::{GammaMode, Linear, Srgb};
use crate::alpha::{Opaque, Premultiplied, Straight, Translucent};
use crate::chan::{Ch16, Ch8};
use crate::pixel::{convert_pixel, convert_spec, ints, Format, Model, Pixel};
use core::marker::PhantomData;

verus! {

/// `x` as a share of `total`, scaled to `m` and rounded half up.
pub open spec fn share_spec(x: int, total: int, m: int) -> int {
    (2 * (x * m) + total) / (2 * total)
}

/// Whiteness and blackness, scaled down at the same ratio so that their sum
/// is `m` where it would exceed `m`.
pub open spec fn whiteness_blackness_spec(w: int, b: int, m: int) -> (int, int) {
    if w + b > m {
        (share_spec(w, w + b, m), share_spec(b, w + b, m))
    } else {
        (w, b)
    }
}

/// Red, green and blue of a color of hue `hue` and chroma `chroma` with no
/// achromatic part: the hue circle is cut into six sectors of sixty degrees,
/// and within each the varying component is `chroma` times the position in
/// the sector.
pub open spec fn hexcone_spec(hue: int, chroma: int, m: int) -> (int, int, int) {
    let sector = 6 * hue / m;
    let f = 6 * hue % m;
    if sector == 1 {
        (mul_spec(chroma, m - f, m), chroma, 0)
    } else if sector == 2 {
        (0, chroma, mul_spec(chroma, f, m))
    } else if sector == 3 {
        (0, mul_spec(chroma, m - f, m), chroma)
    } else if sector == 4 {
        (mul_spec(chroma, f, m), 0, chroma)
    } else if sector == 5 {
        (chroma, 0, mul_spec(chroma, m - f, m))
    } else {
        (chroma, mul_spec(chroma, f, m), 0)
    }
}

/// Red, green and blue of the color with hue `h`, whiteness `w` and
/// blackness `b`: value is `m` less blackness, chroma is value less
/// whiteness, and value less chroma is added to each hexcone component.
pub open spec fn hwb_to_rgb_spec(h: int, w: int, b: int, m: int) -> (int, int, int) {
    let (w2, b2) = whiteness_blackness_spec(w, b, m);
    let v = m - b2;
    let chroma = sub_spec(v, w2);
    let (r, g, bl) = hexcone_spec(h, chroma, m);
    let k = v - chroma;
    (r + k, g + k, bl + k)
}

/// Largest of three values.
pub open spec fn max3(a: int, b: int, c: int) -> int {
    if a >= b && a >= c {
        a
    } else if b >= c {
        b
    } else {
        c
    }
}

/// Smallest of three values.
pub open spec fn min3(a: int, b: int, c: int) -> int {
    if a <= b && a <= c {
        a
    } else if b <= c {
        b
    } else {
        c
    }
}

/// Hue of red `r`, green `g` and blue `b`, as a share of the full circle
/// scaled to `m` and rounded half up; zero for a gray.
pub open spec fn hue_spec(r: int, g: int, b: int, m: int) -> int {
    let v = max3(r, g, b);
    let c = v - min3(r, g, b);
    if c == 0 {
        0
    } else {
        let sixths = if v == r {
            if g >= b {
                g - b
            } else {
                6 * c - (b - g)
            }
        } else if v == g {
            2 * c + b - r
        } else {
            4 * c + r - g
        };
        (2 * (m * sixths) + 6 * c) / (12 * c)
    }
}

/// Hue, whiteness and blackness of red `r`, green `g` and blue `b`.
/// Saturation is chroma over value (zero for black); whiteness is
/// `(m - saturation) * value` and blackness is `m - value`.
pub open spec fn rgb_to_hwb_spec(r: int, g: int, b: int, m: int) -> (int, int, int) {
    let v = max3(r, g, b);
    let c = v - min3(r, g, b);
    let sat = if v > 0 {
        div_spec(c, v, m)
    } else {
        0
    };
    (hue_spec(r, g, b, m), mul_spec(m - sat, v, m), m - v)
}

/// Whiteness and blackness clamped to a sum of `m` at the same ratio.
fn whiteness_blackness(w: u32, b: u32, m: u32) -> (r: (u32, u32))
    requires
        is_max(m as int),
        w <= m,
        b <= m,
    ensures
        (r.0 as int, r.1 as int) == whiteness_blackness_spec(w as int, b as int, m as int),
        r.0 <= m,
        r.1 <= m,
{
    if w + b > m {
        let t: u64 = (w + b) as u64;
        proof {
            assert(w * m <= 65535 * 65535) by (nonlinear_arith)
                requires w <= m, m <= 65535;
            assert(b * m <= 65535 * 65535) by (nonlinear_arith)
                requires b <= m, m <= 65535;
            assert((2 * (w * m) + t) / (2 * t) <= m) by (nonlinear_arith)
                requires w < t, t > 0, m > 0;
            assert((2 * (b * m) + t) / (2 * t) <= m) by (nonlinear_arith)
                requires b < t, t > 0, m > 0;
        }
        let ws = (2 * ((w as u64) * (m as u64)) + t) / (2 * t);
        let bs = (2 * ((b as u64) * (m as u64)) + t) / (2 * t);
        assert(ws == share_spec(w as int, w + b, m as int));
        assert(bs == share_spec(b as int, w + b, m as int));
        (ws as u32, bs as u32)
    } else {
        (w, b)
    }
}

/// Hexcone components of hue `hue` at chroma `chroma`.
fn hexcone(hue: u32, chroma: u32, m: u32) -> (r: (u32, u32, u32))
    requires
        is_max(m as int),
        hue <= m,
        chroma <= m,
    ensures
        (r.0 as int, r.1 as int, r.2 as int) == hexcone_spec(hue as int, chroma as int, m as int),
        r.0 <= chroma,
        r.1 <= chroma,
        r.2 <= chroma,
{
    let hp = 6 * hue;
    let sector = hp / m;
    let f = hp % m;
    if sector == 1 {
        (mul_value(chroma, m - f, m), chroma, 0)
    } else if sector == 2 {
        (0, chroma, mul_value(chroma, f, m))
    } else if sector == 3 {
        (0, mul_value(chroma, m - f, m), chroma)
    } else if sector == 4 {
        (mul_value(chroma, f, m), 0, chroma)
    } else if sector == 5 {
        (chroma, 0, mul_value(chroma, m - f, m))
    } else {
        (chroma, mul_value(chroma, f, m), 0)
    }
}

/// Red, green and blue of hue `h`, whiteness `w` and blackness `b`.
pub fn hwb_to_rgb(h: u32, w: u32, b: u32, m: u32) -> (r: (u32, u32, u32))
    requires
        is_max(m as int),
        h <= m,
        w <= m,
        b <= m,
    ensures
        (r.0 as int, r.1 as int, r.2 as int) == hwb_to_rgb_spec(h as int, w as int, b as int, m as int),
        r.0 <= m,
        r.1 <= m,
        r.2 <= m,
{
    let (w2, b2) = whiteness_blackness(w, b, m);
    let v = m - b2;
    let chroma = if v < w2 {
        0
    } else {
        v - w2
    };
    let (red, green, blue) = hexcone(h, chroma, m);
    let k = v - chroma;
    (red + k, green + k, blue + k)
}

/// Hue of red `r`, green `g` and blue `b`.
fn hue_of(r: u32, g: u32, b: u32, m: u32) -> (h: u32)
    requires
        is_max(m as int),
        r <= m,
        g <= m,
        b <= m,
    ensures
        h == hue_spec(r as int, g as int, b as int, m as int),
        h <= m,
{
    let v = if r >= g && r >= b {
        r
    } else if g >= b {
        g
    } else {
        b
    };
    let lo = if r <= g && r <= b {
        r
    } else if g <= b {
        g
    } else {
        b
    };
    let c = v - lo;
    if c == 0 {
        0
    } else {
        let sixths: u32 = if v == r {
            if g >= b {
                g - b
            } else {
                6 * c - (b - g)
            }
        } else if v == g {
            2 * c + b - r
        } else {
            4 * c + r - g
        };
        proof {
            assert(sixths < 6 * c);
            assert(m * sixths <= 65535 * (6 * 65535)) by (nonlinear_arith)
                requires m <= 65535, sixths < 6 * c, c <= 65535;
            assert((2 * (m * sixths) + 6 * c) / (12 * c) <= m) by (nonlinear_arith)
                requires sixths < 6 * c, c > 0, m > 0;
        }
        let n: u64 = 2 * ((m as u64) * (sixths as u64)) + 6 * (c as u64);
        (n / (12 * (c as u64))) as u32
    }
}

/// Hue, whiteness and blackness of red `r`, green `g` and blue `b`.
pub fn rgb_to_hwb(r: u32, g: u32, b: u32, m: u32) -> (res: (u32, u32, u32))
    requires
        is_max(m as int),
        r <= m,
        g <= m,
        b <= m,
    ensures
        (res.0 as int, res.1 as int, res.2 as int) == rgb_to_hwb_spec(r as int, g as int, b as int, m as int),
        res.0 <= m,
        res.1 <= m,
        res.2 <= m,
{
    let hue = hue_of(r, g, b, m);
    let v = if r >= g && r >= b {
        r
    } else if g >= b {
        g
    } else {
        b
    };
    let lo = if r <= g && r <= b {
        r
    } else if g <= b {
        g
    } else {
        b
    };
    let c = v - lo;
    let sat = if v > 0 {
        div_value(c, v, m)
    } else {
        0
    };
    (hue, mul_value(m - sat, v, m), m - v)
}

/// Hue, whiteness and blackness, with optional alpha.
#[derive(Copy, Debug, PartialEq, Eq)]
pub struct Hwb<C, A, M, G> {
    hue: C,
    whiteness: C,
    blackness: C,
    alpha: A,
    mode: PhantomData<M>,
    gamma: PhantomData<G>,
}

impl<C: Copy, A: Copy, M: Copy, G: Copy> Clone for Hwb<C, A, M, G> {
    fn clone(&self) -> (r: Self)
        ensures
            r == *self,
    {
        *self
    }
}

impl<C: Channel, A: AChannel<C>, M: AlphaMode, G: GammaMode> Hwb<C, A, M, G> {
    /// Convert the pixel to format `D`.
    pub fn convert<D: Pixel>(self) -> (d: D)
        ensures
            d.channels() == convert_spec(Self::format_spec(), D::format_spec(), self.channels()),
    {
        convert_pixel(self)
    }

    /// Pixel of the given components.
    pub fn new(hue: C::Raw, whiteness: C::Raw, blackness: C::Raw, alpha: A::Raw) -> (p: Self)
        ensures
            p.channels() == seq![C::raw_int(hue), C::raw_int(whiteness), C::raw_int(blackness), A::raw_int(alpha)],
    {
        Hwb { hue: C::from_raw(hue), whiteness: C::from_raw(whiteness), blackness: C::from_raw(blackness), alpha: A::from_raw(alpha), mode: PhantomData, gamma: PhantomData }
    }

    /// The *hue* component.
    pub fn hue(self) -> (c: C)
        ensures
            c.value() == self.channels()[0],
    {
        self.hue
    }

    /// The *whiteness* component.
    pub fn whiteness(self) -> (c: C)
        ensures
            c.value() == self.channels()[1],
    {
        self.whiteness
    }

    /// The *blackness* component.
    pub fn blackness(self) -> (c: C)
        ensures
            c.value() == self.channels()[2],
    {
        self.blackness
    }
}

impl<C: Channel, A: AChannel<C>, M: AlphaMode, G: GammaMode> Pixel for Hwb<C, A, M, G> {
    open spec fn format_spec() -> Format {
        Format {
            model: Model::Hwb,
            max: C::max_value() as u32,
            alpha: A::stored(),
            premultiplied: M::premultiplied(),
            srgb: G::srgb(),
        }
    }

    closed spec fn channels(self) -> Seq<int> {
        seq![self.hue.value(), self.whiteness.value(), self.blackness.value(), self.alpha.value()]
    }

    fn format() -> (f: Format) {
        Format {
            model: Model::Hwb,
            max: C::max_u32(),
            alpha: A::is_stored(),
            premultiplied: M::is_premultiplied(),
            srgb: G::is_srgb(),
        }
    }

    fn into_native(self) -> (c: [u32; 4]) {
        proof {
            C::lemma_max();
        }
        [self.hue.to_u32(), self.whiteness.to_u32(), self.blackness.to_u32(), self.alpha.to_u32()]
    }

    fn from_native(c: [u32; 4]) -> (p: Self) {
        proof {
            C::lemma_max();
            assert(ints(c)[0] == c[0] && ints(c)[1] == c[1] && ints(c)[2] == c[2] && ints(c)[3] == c[3]);
        }
        Hwb { hue: C::from_u32(c[0]), whiteness: C::from_u32(c[1]), blackness: C::from_u32(c[2]), alpha: A::from_u32(c[3]), mode: PhantomData, gamma: PhantomData }
    }
}

/// Hue, whiteness, blackness, 8-bit opaque, linear gamma.
pub type Hwb8 = Hwb<Ch8, Opaque, Straight, Linear>;

/// Hue, whiteness, blackness, 8-bit with straight alpha, linear gamma.
pub type Hwba8 = Hwb<Ch8, Translucent<Ch8>, Straight, Linear>;

/// Hue, whiteness, blackness, 8-bit with premultiplied alpha, linear gamma.
pub type Hwba8p = Hwb<Ch8, Translucent<Ch8>, Premultiplied, Linear>;

/// Hue, whiteness, blackness, 16-bit opaque, linear gamma.
pub type Hwb16 = Hwb<Ch16, Opaque, Straight, Linear>;

/// Hue, whiteness, blackness, 16-bit with straight alpha, linear gamma.
pub type Hwba16 = Hwb<Ch16, Translucent<Ch16>, Straight, Linear>;

/// Hue, whiteness, blackness, 16-bit with premultiplied alpha, linear gamma.
pub type Hwba16p = Hwb<Ch16, Translucent<Ch16>, Premultiplied, Linear>;

/// Hue, whiteness, blackness, 8-bit opaque, sRGB gamma.
pub type SHwb8 = Hwb<Ch8, Opaque, Straight, Srgb>;

/// Hue, whiteness, blackness, 8-bit with straight alpha, sRGB gamma.
pub type SHwba8 = Hwb<Ch8, Translucent<Ch8>, Straight, Srgb>;

/// Hue, whiteness, blackness, 8-bit with premultiplied alpha, sRGB gamma.
pub type SHwba8p = Hwb<Ch8, Translucent<Ch8>, Premultiplied, Srgb>;

/// Hue, whiteness, blackness, 16-bit opaque, sRGB gamma.
pub type SHwb16 = Hwb<Ch16, Opaque, Straight, Srgb>;

/// Hue, whiteness, blackness, 16-bit with straight alpha, sRGB gamma.
pub type SHwba16 = Hwb<Ch16, Translucent<Ch16>, Straight, Srgb>;

/// Hue, whiteness, blackness, 16-bit with premultiplied alpha, sRGB gamma.
pub type SHwba16p = Hwb<Ch16, Translucent<Ch16>, Premultiplied, Srgb>;

} // verus!
