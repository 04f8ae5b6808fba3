//! The red, green, blue color model.
use vstd::prelude::*;
use crate::alpha::{AChannel, AlphaMode, Opaque, Premultiplied, Straight, Translucent};
use crate::chan::{Ch16, Ch8, Channel};
use crate::gamma::{GammaMode, Linear, Srgb};
use crate::pixel::{convert_pixel, convert_spec, ints, Format, Model, Pixel};
use core::marker::PhantomData;

verus! {

/// Red, green and blue, with optional alpha.
#[derive(Copy, Debug, PartialEq, Eq)]
pub struct Rgb<C, A, M, G> {
    red: C,
    green: C,
    blue: C,
    alpha: A,
    mode: PhantomData<M>,
    gamma: PhantomData<G>,
}

impl<C: Copy, A: Copy, M: Copy, G: Copy> Clone for Rgb<C, A, M, G> {
    fn clone(&self) -> (r: Self)
        ensures
            r == *self,
    {
        *self
    }
}

impl<C: Channel, A: AChannel<C>, M: AlphaMode, G: GammaMode> Rgb<C, A, M, G> {
    /// Convert the pixel to format `D`.
    pub fn convert<D: Pixel>(self) -> (d: D)
        ensures
            d.channels() == convert_spec(Self::format_spec(), D::format_spec(), self.channels()),
    {
        convert_pixel(self)
    }

    /// Pixel of the given components.
    pub fn new(red: C::Raw, green: C::Raw, blue: C::Raw, alpha: A::Raw) -> (p: Self)
        ensures
            p.channels() == seq![C::raw_int(red), C::raw_int(green), C::raw_int(blue), A::raw_int(alpha)],
    {
        Rgb { red: C::from_raw(red), green: C::from_raw(green), blue: C::from_raw(blue), alpha: A::from_raw(alpha), mode: PhantomData, gamma: PhantomData }
    }
}

impl<C: Channel, A: AChannel<C>, M: AlphaMode, G: GammaMode> Pixel for Rgb<C, A, M, G> {
    open spec fn format_spec() -> Format {
        Format {
            model: Model::Rgb,
            max: C::max_value() as u32,
            alpha: A::stored(),
            premultiplied: M::premultiplied(),
            srgb: G::srgb(),
        }
    }

    closed spec fn channels(self) -> Seq<int> {
        seq![self.red.value(), self.green.value(), self.blue.value(), self.alpha.value()]
    }

    fn format() -> (f: Format) {
        Format {
            model: Model::Rgb,
            max: C::max_u32(),
            alpha: A::is_stored(),
            premultiplied: M::is_premultiplied(),
            srgb: G::is_srgb(),
        }
    }

    fn into_native(self) -> (c: [u32; 4]) {
        proof {
            C::lemma_max();
        }
        [self.red.to_u32(), self.green.to_u32(), self.blue.to_u32(), self.alpha.to_u32()]
    }

    fn from_native(c: [u32; 4]) -> (p: Self) {
        proof {
            C::lemma_max();
            assert(ints(c)[0] == c[0] && ints(c)[1] == c[1] && ints(c)[2] == c[2] && ints(c)[3] == c[3]);
        }
        Rgb { red: C::from_u32(c[0]), green: C::from_u32(c[1]), blue: C::from_u32(c[2]), alpha: A::from_u32(c[3]), mode: PhantomData, gamma: PhantomData }
    }
}

/// Red, green, blue, 8-bit opaque, linear gamma.
pub type Rgb8 = Rgb<Ch8, Opaque, Straight, Linear>;

/// Red, green, blue, 8-bit with straight alpha, linear gamma.
pub type Rgba8 = Rgb<Ch8, Translucent<Ch8>, Straight, Linear>;

/// Red, green, blue, 8-bit with premultiplied alpha, linear gamma.
pub type Rgba8p = Rgb<Ch8, Translucent<Ch8>, Premultiplied, Linear>;

/// Red, green, blue, 16-bit opaque, linear gamma.
pub type Rgb16 = Rgb<Ch16, Opaque, Straight, Linear>;

/// Red, green, blue, 16-bit with straight alpha, linear gamma.
pub type Rgba16 = Rgb<Ch16, Translucent<Ch16>, Straight, Linear>;

/// Red, green, blue, 16-bit with premultiplied alpha, linear gamma.
pub type Rgba16p = Rgb<Ch16, Translucent<Ch16>, Premultiplied, Linear>;

/// Red, green, blue, 8-bit opaque, sRGB gamma.
pub type SRgb8 = Rgb<Ch8, Opaque, Straight, Srgb>;

/// Red, green, blue, 8-bit with straight alpha, sRGB gamma.
pub type SRgba8 = Rgb<Ch8, Translucent<Ch8>, Straight, Srgb>;

/// Red, green, blue, 8-bit with premultiplied alpha, sRGB gamma.
pub type SRgba8p = Rgb<Ch8, Translucent<Ch8>, Premultiplied, Srgb>;

/// Red, green, blue, 16-bit opaque, sRGB gamma.
pub type SRgb16 = Rgb<Ch16, Opaque, Straight, Srgb>;

/// Red, green, blue, 16-bit with straight alpha, sRGB gamma.
pub type SRgba16 = Rgb<Ch16, Translucent<Ch16>, Straight, Srgb>;

/// Red, green, blue, 16-bit with premultiplied alpha, sRGB gamma.
pub type SRgba16p = Rgb<Ch16, Translucent<Ch16>, Premultiplied, Srgb>;

} // verus!
