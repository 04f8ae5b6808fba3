//! Porter-Duff compositing operators.
use vstd::prelude::*;
use crate::chan::{add_spec, add_value, is_max, mul_spec, mul_value};
use crate::pixel::{convert_channels, convert_spec, ints, normal, valid_format, Format};

verus! {

/// A compositing operator: how a source pixel combines with a destination
/// pixel of the same format.
pub trait PorterDuff: Copy {
    /// Channels of destination `dst` after compositing source `src` onto it,
    /// both of format `f`.
    spec fn blend_spec(f: Format, dst: Seq<int>, src: Seq<int>) -> Seq<int>;

    /// Composite source channels `src` onto destination channels `dst`.
    fn blend(f: Format, dst: [u32; 4], src: [u32; 4]) -> (r: [u32; 4])
        requires
            valid_format(f),
            normal(f, ints(dst)),
            normal(f, ints(src)),
        ensures
            ints(r) == Self::blend_spec(f, ints(dst), ints(src)),
            normal(f, ints(r)),
    ;
}

/// The source replaces the destination.
#[derive(Clone, Copy, Debug, Default, PartialEq, Eq, Structural)]
pub struct Source;

/// The source is placed over the destination:
/// `dst = src + dst * (1 - src.alpha)`.
#[derive(Clone, Copy, Debug, Default, PartialEq, Eq, Structural)]
pub struct SourceOver;

impl PorterDuff for Source {
    open spec fn blend_spec(f: Format, dst: Seq<int>, src: Seq<int>) -> Seq<int> {
        src
    }

    fn blend(f: Format, dst: [u32; 4], src: [u32; 4]) -> (r: [u32; 4]) {
        src
    }
}

/// Format `f` with premultiplied alpha and linear gamma, the form in which
/// source-over is computed.
pub open spec fn over_format(f: Format) -> Format {
    Format { premultiplied: true, srgb: false, ..f }
}

/// One channel `d` of the destination under source channel `s`, whose
/// alpha is `sa`.
pub open spec fn over_channel(d: int, s: int, sa: int, m: int) -> int {
    add_spec(s, mul_spec(d, m - sa, m), m)
}

/// Source-over on premultiplied, linear channels with maximum `m`.
pub open spec fn over_all(d: Seq<int>, s: Seq<int>, m: int) -> Seq<int> {
    seq![
        over_channel(d[0], s[0], s[3], m),
        over_channel(d[1], s[1], s[3], m),
        over_channel(d[2], s[2], s[3], m),
        over_channel(d[3], s[3], s[3], m),
    ]
}

/// Source-over of premultiplied, linear channels.
fn over(d: [u32; 4], s: [u32; 4], m: u32) -> (r: [u32; 4])
    requires
        is_max(m as int),
        forall|i: int| 0 <= i < 4 ==> d[i] <= m && s[i] <= m,
    ensures
        ints(r) == over_all(ints(d), ints(s), m as int),
        forall|i: int| 0 <= i < 4 ==> r[i] <= m,
        forall|i: int| 0 <= i < 4 && d[i] == 0 && s[i] == 0 ==> r[i] == 0,
        s[3] == m ==> r[3] == m,
{
    let k = m - s[3];
    [
        add_value(s[0], mul_value(d[0], k, m), m),
        add_value(s[1], mul_value(d[1], k, m), m),
        add_value(s[2], mul_value(d[2], k, m), m),
        add_value(s[3], mul_value(d[3], k, m), m),
    ]
}

impl PorterDuff for SourceOver {
    open spec fn blend_spec(f: Format, dst: Seq<int>, src: Seq<int>) -> Seq<int> {
        let v = over_format(f);
        convert_spec(
            v,
            f,
            over_all(convert_spec(f, v, dst), convert_spec(f, v, src), f.max as int),
        )
    }

    fn blend(f: Format, dst: [u32; 4], src: [u32; 4]) -> (r: [u32; 4]) {
        let v = Format { premultiplied: true, srgb: false, ..f };
        let d = convert_channels(f, v, dst);
        let s = convert_channels(f, v, src);
        assert(normal(v, ints(d)));
        assert(normal(v, ints(s)));
        assert(forall|i: int| 0 <= i < 4 ==> ints(d)[i] == d[i] && ints(s)[i] == s[i]);
        let o = over(d, s, f.max);
        assert(normal(v, ints(o)));
        convert_channels(v, f, o)
    }
}

} // verus!
