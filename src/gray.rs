//! The gray color model.
use vstd::prelude::*;
use crate::alpha::{AChannel, AlphaMode, Opaque, Premultiplied, Straight, Translucent};
use crate::chan::{Ch16, Ch8, Channel};
use crate::gamma::{GammaMode, Linear, Srgb};
use crate::pixel::{convert_pixel, convert_spec, ints, Format, Model, Pixel};
use core::marker::PhantomData;

verus! {

/// A single gray value, with optional alpha.
#[derive(Copy, Debug, PartialEq, Eq)]
pub struct Gray<C, A, M, G> {
    value: C,
    alpha: A,
    mode: PhantomData<M>,
    gamma: PhantomData<G>,
}

impl<C: Copy, A: Copy, M: Copy, G: Copy> Clone for Gray<C, A, M, G> {
    fn clone(&self) -> (r: Self)
        ensures
            r == *self,
    {
        *self
    }
}

impl<C: Channel, A: AChannel<C>, M: AlphaMode, G: GammaMode> Gray<C, A, M, G> {
    /// Convert the pixel to format `D`.
    pub fn convert<D: Pixel>(self) -> (d: D)
        ensures
            d.channels() == convert_spec(Self::format_spec(), D::format_spec(), self.channels()),
    {
        convert_pixel(self)
    }

    /// Pixel of the given components.
    pub fn new(value: C::Raw, alpha: A::Raw) -> (p: Self)
        ensures
            p.channels() == seq![C::raw_int(value), 0, 0, A::raw_int(alpha)],
    {
        Gray { value: C::from_raw(value), alpha: A::from_raw(alpha), mode: PhantomData, gamma: PhantomData }
    }
}

impl<C: Channel, A: AChannel<C>, M: AlphaMode, G: GammaMode> Pixel for Gray<C, A, M, G> {
    open spec fn format_spec() -> Format {
        Format {
            model: Model::Gray,
            max: C::max_value() as u32,
            alpha: A::stored(),
            premultiplied: M::premultiplied(),
            srgb: G::srgb(),
        }
    }

    closed spec fn channels(self) -> Seq<int> {
        seq![self.value.value(), 0, 0, self.alpha.value()]
    }

    fn format() -> (f: Format) {
        Format {
            model: Model::Gray,
            max: C::max_u32(),
            alpha: A::is_stored(),
            premultiplied: M::is_premultiplied(),
            srgb: G::is_srgb(),
        }
    }

    fn into_native(self) -> (c: [u32; 4]) {
        proof {
            C::lemma_max();
        }
        [self.value.to_u32(), 0, 0, self.alpha.to_u32()]
    }

    fn from_native(c: [u32; 4]) -> (p: Self) {
        proof {
            C::lemma_max();
            assert(ints(c)[0] == c[0] && ints(c)[1] == c[1] && ints(c)[2] == c[2] && ints(c)[3] == c[3]);
        }
        Gray { value: C::from_u32(c[0]), alpha: A::from_u32(c[3]), mode: PhantomData, gamma: PhantomData }
    }
}

/// Gray, 8-bit opaque, linear gamma.
pub type Gray8 = Gray<Ch8, Opaque, Straight, Linear>;

/// Gray, 8-bit with straight alpha, linear gamma.
pub type Graya8 = Gray<Ch8, Translucent<Ch8>, Straight, Linear>;

/// Gray, 8-bit with premultiplied alpha, linear gamma.
pub type Graya8p = Gray<Ch8, Translucent<Ch8>, Premultiplied, Linear>;

/// Gray, 16-bit opaque, linear gamma.
pub type Gray16 = Gray<Ch16, Opaque, Straight, Linear>;

/// Gray, 16-bit with straight alpha, linear gamma.
pub type Graya16 = Gray<Ch16, Translucent<Ch16>, Straight, Linear>;

/// Gray, 16-bit with premultiplied alpha, linear gamma.
pub type Graya16p = Gray<Ch16, Translucent<Ch16>, Premultiplied, Linear>;

/// Gray, 8-bit opaque, sRGB gamma.
pub type SGray8 = Gray<Ch8, Opaque, Straight, Srgb>;

/// Gray, 8-bit with straight alpha, sRGB gamma.
pub type SGraya8 = Gray<Ch8, Translucent<Ch8>, Straight, Srgb>;

/// Gray, 8-bit with premultiplied alpha, sRGB gamma.
pub type SGraya8p = Gray<Ch8, Translucent<Ch8>, Premultiplied, Srgb>;

/// Gray, 16-bit opaque, sRGB gamma.
pub type SGray16 = Gray<Ch16, Opaque, Straight, Srgb>;

/// Gray, 16-bit with straight alpha, sRGB gamma.
pub type SGraya16 = Gray<Ch16, Translucent<Ch16>, Straight, Srgb>;

/// Gray, 16-bit with premultiplied alpha, sRGB gamma.
pub type SGraya16p = Gray<Ch16, Translucent<Ch16>, Premultiplied, Srgb>;

} // verus!
