//! Pixel formats and conversion between them.
use vstd::prelude::*;
use crate::alpha::{premultiply, premultiply_spec, unpremultiply, unpremultiply_spec};
use crate::chan::{is_max, rescale, rescale_value, Channel};
use crate::gamma::{from_linear, from_linear_spec, to_linear, to_linear_spec};
use crate::hwb::{hwb_to_rgb, hwb_to_rgb_spec, max3, rgb_to_hwb, rgb_to_hwb_spec};

verus! {

/// Color model of a pixel format.
#[derive(Clone, Copy, Debug, PartialEq, Eq, Structural)]
pub enum Model {
    /// Red, green and blue.
    Rgb,
    /// A single value, the largest of red, green and blue.
    Gray,
    /// Alpha only; red, green and blue are at their maximum.
    Matte,
    /// Hue, whiteness and blackness.
    Hwb,
}

/// Everything that sets one pixel format apart from another.
#[derive(Clone, Copy, Debug, PartialEq, Eq, Structural)]
pub struct Format {
    /// Color model.
    pub model: Model,
    /// Largest channel value: 255 or 65535.
    pub max: u32,
    /// The alpha channel is stored (otherwise the pixel is opaque).
    pub alpha: bool,
    /// Color channels are premultiplied by alpha.
    pub premultiplied: bool,
    /// Color channels are sRGB encoded (otherwise linear).
    pub srgb: bool,
}

/// A format the library can hold: a supported width, and a matte always
/// stores its alpha.
pub open spec fn valid_format(f: Format) -> bool {
    &&& is_max(f.max as int)
    &&& f.model == Model::Matte ==> f.alpha
}

/// The four channel values of `c`.
pub open spec fn ints(c: [u32; 4]) -> Seq<int> {
    seq![c[0] as int, c[1] as int, c[2] as int, c[3] as int]
}

/// `s` holds the channels of a pixel of format `f`: four values in range,
/// with alpha last.  Gray keeps its value first and zeros after it; a matte
/// keeps only alpha; an opaque pixel has alpha at its maximum.
pub open spec fn normal(f: Format, s: Seq<int>) -> bool {
    &&& s.len() == 4
    &&& forall|i: int| 0 <= i < 4 ==> 0 <= #[trigger] s[i] <= f.max
    &&& f.model == Model::Gray ==> s[1] == 0 && s[2] == 0
    &&& f.model == Model::Matte ==> s[0] == 0 && s[1] == 0 && s[2] == 0
    &&& !f.alpha ==> s[3] == f.max
}

/// Red, green, blue and alpha of channels `s` of format `f`, at the same
/// width, alpha mode and gamma.
pub open spec fn to_rgba_spec(f: Format, s: Seq<int>) -> Seq<int> {
    let m = f.max as int;
    match f.model {
        Model::Rgb => s,
        Model::Gray => seq![s[0], s[0], s[0], s[3]],
        Model::Matte => seq![m, m, m, s[3]],
        Model::Hwb => {
            let (r, g, b) = hwb_to_rgb_spec(s[0], s[1], s[2], m);
            seq![r, g, b, s[3]]
        },
    }
}

/// Channels of format `f` of red, green, blue and alpha `c`.
pub open spec fn from_rgba_spec(f: Format, c: Seq<int>) -> Seq<int> {
    let m = f.max as int;
    let a = if f.alpha {
        c[3]
    } else {
        m
    };
    match f.model {
        Model::Rgb => seq![c[0], c[1], c[2], a],
        Model::Gray => seq![max3(c[0], c[1], c[2]), 0, 0, a],
        Model::Matte => seq![0, 0, 0, c[3]],
        Model::Hwb => {
            let (h, w, b) = rgb_to_hwb_spec(c[0], c[1], c[2], m);
            seq![h, w, b, a]
        },
    }
}

/// Each channel of `s` moved from maximum `from` to maximum `to`.
pub open spec fn rescale_all(s: Seq<int>, from: int, to: int) -> Seq<int> {
    seq![rescale(s[0], from, to), rescale(s[1], from, to), rescale(s[2], from, to), rescale(s[3], from, to)]
}

/// Color channel `c` under alpha `a` moved from the alpha mode and gamma of
/// `src` to those of `dst`: to linear light, then (where the alpha modes
/// differ) to straight alpha and on to the destination's alpha mode, then
/// to the destination's gamma.
pub open spec fn alpha_gamma_spec(c: int, a: int, src: Format, dst: Format) -> int {
    let m = dst.max as int;
    let l = to_linear_spec(c, m, src.srgb);
    let l2 = if src.premultiplied != dst.premultiplied {
        let straight = if src.premultiplied {
            unpremultiply_spec(l, a, m)
        } else {
            l
        };
        if dst.premultiplied {
            premultiply_spec(straight, a, m)
        } else {
            straight
        }
    } else {
        l
    };
    from_linear_spec(l2, m, dst.srgb)
}

/// The alpha mode or the gamma of `src` and `dst` differ.
pub open spec fn modes_differ(src: Format, dst: Format) -> bool {
    src.premultiplied != dst.premultiplied || src.srgb != dst.srgb
}

/// Red, green, blue and alpha `s` with color channels moved from the modes
/// of `src` to those of `dst`; unchanged where the modes agree.
pub open spec fn alpha_gamma_all(s: Seq<int>, src: Format, dst: Format) -> Seq<int> {
    if modes_differ(src, dst) {
        seq![
            alpha_gamma_spec(s[0], s[3], src, dst),
            alpha_gamma_spec(s[1], s[3], src, dst),
            alpha_gamma_spec(s[2], s[3], src, dst),
            s[3],
        ]
    } else {
        s
    }
}

/// Channels of a pixel of format `src` with channels `s`, converted to
/// format `dst`.  A pixel converted to its own format is unchanged;
/// otherwise it goes through red, green, blue and alpha at the
/// destination's width, has its alpha mode and gamma converted, and is
/// rebuilt in the destination's model.
pub open spec fn convert_spec(src: Format, dst: Format, s: Seq<int>) -> Seq<int> {
    if src == dst {
        s
    } else {
        from_rgba_spec(
            dst,
            alpha_gamma_all(rescale_all(to_rgba_spec(src, s), src.max as int, dst.max as int), src, dst),
        )
    }
}

/// Red, green, blue and alpha of channels `c` of format `f`.
fn to_rgba(f: Format, c: [u32; 4]) -> (r: [u32; 4])
    requires
        valid_format(f),
        normal(f, ints(c)),
    ensures
        ints(r) == to_rgba_spec(f, ints(c)),
        forall|i: int| 0 <= i < 4 ==> r[i] <= f.max,
{
    let m = f.max;
    match f.model {
        Model::Rgb => c,
        Model::Gray => [c[0], c[0], c[0], c[3]],
        Model::Matte => [m, m, m, c[3]],
        Model::Hwb => {
            let (r, g, b) = hwb_to_rgb(c[0], c[1], c[2], m);
            [r, g, b, c[3]]
        },
    }
}

/// Channels of format `f` of red, green, blue and alpha `c`.
fn from_rgba(f: Format, c: [u32; 4]) -> (r: [u32; 4])
    requires
        valid_format(f),
        forall|i: int| 0 <= i < 4 ==> c[i] <= f.max,
    ensures
        ints(r) == from_rgba_spec(f, ints(c)),
        normal(f, ints(r)),
{
    let m = f.max;
    let a = if f.alpha {
        c[3]
    } else {
        m
    };
    match f.model {
        Model::Rgb => [c[0], c[1], c[2], a],
        Model::Gray => {
            let v = if c[0] >= c[1] && c[0] >= c[2] {
                c[0]
            } else if c[1] >= c[2] {
                c[1]
            } else {
                c[2]
            };
            [v, 0, 0, a]
        },
        Model::Matte => [0, 0, 0, c[3]],
        Model::Hwb => {
            let (h, w, b) = rgb_to_hwb(c[0], c[1], c[2], m);
            [h, w, b, a]
        },
    }
}

/// Convert one color channel between the alpha modes and gammas of two
/// formats.
fn alpha_gamma_channel(c: u32, a: u32, src: Format, dst: Format) -> (r: u32)
    requires
        is_max(dst.max as int),
        c <= dst.max,
        a <= dst.max,
    ensures
        r == alpha_gamma_spec(c as int, a as int, src, dst),
        r <= dst.max,
{
    let m = dst.max;
    let mut l = to_linear(c, m, src.srgb);
    if src.premultiplied != dst.premultiplied {
        if src.premultiplied {
            l = unpremultiply(l, a, m);
        }
        if dst.premultiplied {
            l = premultiply(l, a, m);
        }
    }
    from_linear(l, m, dst.srgb)
}

/// Convert the color channels of red, green, blue and alpha `channels`, at
/// the width of `dst`, from the alpha mode and gamma of `src` to those of
/// `dst`.  Alpha is left as it is.
pub fn convert_alpha_gamma(src: Format, dst: Format, channels: &mut [u32; 4])
    requires
        is_max(dst.max as int),
        modes_differ(src, dst),
        forall|i: int| 0 <= i < 4 ==> old(channels)[i] <= dst.max,
    ensures
        ints(*final(channels)) == alpha_gamma_all(ints(*old(channels)), src, dst),
        forall|i: int| 0 <= i < 4 ==> final(channels)[i] <= dst.max,
{
    let alpha = channels[3];
    let mut i: usize = 0;
    while i < 3
        invariant
            is_max(dst.max as int),
            0 <= i <= 3,
            alpha == old(channels)[3],
            channels[3] == alpha,
            forall|j: int| 0 <= j < 4 ==> channels[j] <= dst.max,
            forall|j: int| 0 <= j < i ==> channels[j] as int
                == alpha_gamma_spec(old(channels)[j] as int, alpha as int, src, dst),
            forall|j: int| i <= j < 4 ==> channels[j] == old(channels)[j],
        decreases 3 - i,
    {
        channels[i] = alpha_gamma_channel(channels[i], alpha, src, dst);
        i += 1;
    }
}

/// Convert channels `c` of format `src` to format `dst`.
pub fn convert_channels(src: Format, dst: Format, c: [u32; 4]) -> (r: [u32; 4])
    requires
        valid_format(src),
        valid_format(dst),
        normal(src, ints(c)),
    ensures
        ints(r) == convert_spec(src, dst, ints(c)),
        src == dst || normal(dst, ints(r)),
{
    if src == dst {
        return c;
    }
    let rgba = to_rgba(src, c);
    let mut chan = [
        rescale_value(rgba[0], src.max, dst.max),
        rescale_value(rgba[1], src.max, dst.max),
        rescale_value(rgba[2], src.max, dst.max),
        rescale_value(rgba[3], src.max, dst.max),
    ];
    assert(ints(chan) == rescale_all(to_rgba_spec(src, ints(c)), src.max as int, dst.max as int));
    if src.premultiplied != dst.premultiplied || src.srgb != dst.srgb {
        convert_alpha_gamma(src, dst, &mut chan);
    }
    from_rgba(dst, chan)
}

/// Number of channels a pixel of format `f` stores: its model's components
/// and, where it is stored, alpha.
pub open spec fn stored_count(f: Format) -> int {
    match f.model {
        Model::Rgb | Model::Hwb => if f.alpha {
            4
        } else {
            3
        },
        Model::Gray => if f.alpha {
            2
        } else {
            1
        },
        Model::Matte => 1,
    }
}

/// Channels of a pixel of format `f` whose stored channels, in the order of
/// its fields, are `w`.
pub open spec fn unpack_spec(f: Format, w: Seq<int>) -> Seq<int> {
    let a = if f.alpha {
        w[stored_count(f) - 1]
    } else {
        f.max as int
    };
    match f.model {
        Model::Rgb | Model::Hwb => seq![w[0], w[1], w[2], a],
        Model::Gray => seq![w[0], 0, 0, a],
        Model::Matte => seq![0, 0, 0, w[0]],
    }
}

/// Stored channels, in the order of the fields, of a pixel of format `f`
/// with channels `c`.
pub open spec fn pack_spec(f: Format, c: Seq<int>) -> Seq<int> {
    let color = match f.model {
        Model::Rgb | Model::Hwb => seq![c[0], c[1], c[2]],
        Model::Gray => seq![c[0]],
        Model::Matte => Seq::empty(),
    };
    if f.alpha {
        color.push(c[3])
    } else {
        color
    }
}

/// Unpacking the stored channels of a pixel gives back its channels.
pub proof fn lemma_unpack_pack(f: Format, c: Seq<int>)
    requires
        valid_format(f),
        normal(f, c),
    ensures
        pack_spec(f, c).len() == stored_count(f),
        unpack_spec(f, pack_spec(f, c)) == c,
{
    assert(unpack_spec(f, pack_spec(f, c)) =~= c);
}

/// Stored channels of the pixel with channels `c` of format `f`.
pub fn pack(f: Format, c: [u32; 4]) -> (w: Vec<u32>)
    requires
        valid_format(f),
        normal(f, ints(c)),
    ensures
        w@.map_values(|v: u32| v as int) == pack_spec(f, ints(c)),
        forall|i: int| 0 <= i < w@.len() ==> #[trigger] w@[i] <= f.max,
{
    let mut w: Vec<u32> = Vec::new();
    match f.model {
        Model::Rgb | Model::Hwb => {
            w.push(c[0]);
            w.push(c[1]);
            w.push(c[2]);
        },
        Model::Gray => {
            w.push(c[0]);
        },
        Model::Matte => {},
    }
    if f.alpha {
        w.push(c[3]);
    }
    assert(w@.map_values(|v: u32| v as int) =~= pack_spec(f, ints(c)));
    w
}

/// Number of channels a pixel of format `f` stores.
pub fn stored_count_of(f: Format) -> (n: usize)
    ensures
        n == stored_count(f),
        1 <= n <= 4,
{
    match f.model {
        Model::Rgb | Model::Hwb => if f.alpha {
            4
        } else {
            3
        },
        Model::Gray => if f.alpha {
            2
        } else {
            1
        },
        Model::Matte => 1,
    }
}

/// Channels of the pixel of format `f` stored at `w[start..]`.
pub fn unpack(f: Format, w: &Vec<u32>, start: usize) -> (c: [u32; 4])
    requires
        valid_format(f),
        start + stored_count(f) <= w@.len(),
        forall|i: int| 0 <= i < w@.len() ==> #[trigger] w@[i] <= f.max,
    ensures
        ints(c) == unpack_spec(f, w@.map_values(|v: u32| v as int).subrange(start as int, start + stored_count(f))),
        normal(f, ints(c)),
{
    let ghost s = w@.map_values(|v: u32| v as int).subrange(start as int, start + stored_count(f));
    let n = stored_count_of(f);
    let _len = w.len();
    let a = if f.alpha {
        w[start + n - 1]
    } else {
        f.max
    };
    assert(forall|i: int| 0 <= i < n ==> s[i] == w@[start + i]);
    match f.model {
        Model::Rgb | Model::Hwb => [w[start], w[start + 1], w[start + 2], a],
        Model::Gray => [w[start], 0, 0, a],
        Model::Matte => [0, 0, 0, w[start]],
    }
}

/// Channels of a blank pixel of format `f`: all zero but alpha of an opaque
/// pixel.
pub open spec fn blank_spec(f: Format) -> Seq<int> {
    seq![0, 0, 0, if f.alpha { 0 } else { f.max as int }]
}

/// A pixel format: a color model, a channel width, an alpha mode and a
/// gamma.
pub trait Pixel: Copy + Sized {
    /// Format of pixels of this type.
    spec fn format_spec() -> Format;

    /// Channels of the pixel: the model's three components (see `normal`)
    /// and alpha.
    spec fn channels(self) -> Seq<int>;

    /// Format of pixels of this type.
    fn format() -> (f: Format)
        ensures
            f == Self::format_spec(),
            valid_format(f),
    ;

    /// Channels of the pixel.
    fn into_native(self) -> (c: [u32; 4])
        ensures
            ints(c) == self.channels(),
            normal(Self::format_spec(), ints(c)),
    ;

    /// Pixel with channels `c`.
    fn from_native(c: [u32; 4]) -> (p: Self)
        requires
            normal(Self::format_spec(), ints(c)),
        ensures
            p.channels() == ints(c),
    ;

    /// Blank pixel: zero in every channel, opaque where alpha is not
    /// stored.
    fn blank() -> (p: Self)
        ensures
            p.channels() == blank_spec(Self::format_spec()),
    {
        let f = Self::format();
        let a = if f.alpha {
            0
        } else {
            f.max
        };
        Self::from_native([0, 0, 0, a])
    }
}

/// Convert pixel `p` of format `S` to format `D`.
pub fn convert_pixel<S: Pixel, D: Pixel>(p: S) -> (d: D)
    ensures
        d.channels() == convert_spec(S::format_spec(), D::format_spec(), p.channels()),
{
    let c = convert_channels(S::format(), D::format(), p.into_native());
    D::from_native(c)
}

/// Converting a pixel to its own format leaves it unchanged.
pub proof fn lemma_convert_to_own_format<P: Pixel>(p: P)
    ensures
        convert_spec(P::format_spec(), P::format_spec(), p.channels()) == p.channels(),
{
}

} // verus!
