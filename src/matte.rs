//! The alpha matte color model.
use vstd::prelude::*;
use crate::chan::{Ch16, Ch8, Channel};
use crate::pixel::{convert_pixel, convert_spec, ints, Format, Model, Pixel};

verus! {

/// Alpha only: a matte, or mask.
#[derive(Copy, Debug, PartialEq, Eq)]
pub struct Matte<C> {
    alpha: C,
}

impl<C: Copy> Clone for Matte<C> {
    fn clone(&self) -> (r: Self)
        ensures
            r == *self,
    {
        *self
    }
}

impl<C: Channel> Matte<C> {
    /// Convert the pixel to format `D`.
    pub fn convert<D: Pixel>(self) -> (d: D)
        ensures
            d.channels() == convert_spec(Self::format_spec(), D::format_spec(), self.channels()),
    {
        convert_pixel(self)
    }

    /// Pixel of the given components.
    pub fn new(alpha: C::Raw) -> (p: Self)
        ensures
            p.channels() == seq![0, 0, 0, C::raw_int(alpha)],
    {
        Matte { alpha: C::from_raw(alpha) }
    }

    /// The *alpha* component.
    pub fn alpha(self) -> (c: C)
        ensures
            c.value() == self.channels()[3],
    {
        self.alpha
    }
}

impl<C: Channel> Pixel for Matte<C> {
    open spec fn format_spec() -> Format {
        Format {
            model: Model::Matte,
            max: C::max_value() as u32,
            alpha: true,
            premultiplied: false,
            srgb: false,
        }
    }

    closed spec fn channels(self) -> Seq<int> {
        seq![0, 0, 0, self.alpha.value()]
    }

    fn format() -> (f: Format) {
        Format {
            model: Model::Matte,
            max: C::max_u32(),
            alpha: true,
            premultiplied: false,
            srgb: false,
        }
    }

    fn into_native(self) -> (c: [u32; 4]) {
        proof {
            C::lemma_max();
        }
        [0, 0, 0, self.alpha.to_u32()]
    }

    fn from_native(c: [u32; 4]) -> (p: Self) {
        proof {
            C::lemma_max();
            assert(ints(c)[0] == c[0] && ints(c)[1] == c[1] && ints(c)[2] == c[2] && ints(c)[3] == c[3]);
        }
        Matte { alpha: C::from_u32(c[3]) }
    }
}

/// Matte of eight bits.
pub type Matte8 = Matte<Ch8>;

/// Matte of sixteen bits.
pub type Matte16 = Matte<Ch16>;

/// Mask of eight bits: another name of `Matte8`.
pub type Mask8 = Matte<Ch8>;

/// Mask of sixteen bits: another name of `Matte16`.
pub type Mask16 = Matte<Ch16>;

} // verus!
