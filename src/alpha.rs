//! Alpha modes and alpha channels.
use vstd::prelude::*;
use crate::chan::{div_spec, div_value, is_max, mul_spec, mul_value, Channel};

verus! {

/// Color channel `c` premultiplied by alpha `a`, channels with maximum `m`.
pub open spec fn premultiply_spec(c: int, a: int, m: int) -> int {
    mul_spec(c, a, m)
}

/// Straight color channel of premultiplied `c` under alpha `a`.  A fully
/// transparent pixel carries no color: its channels decode to zero.
pub open spec fn unpremultiply_spec(c: int, a: int, m: int) -> int {
    if a == 0 {
        0
    } else {
        div_spec(c, a, m)
    }
}

/// Premultiply color channel `c` by alpha `a`.
pub fn premultiply(c: u32, a: u32, m: u32) -> (r: u32)
    requires
        is_max(m as int),
        c <= m,
        a <= m,
    ensures
        r == premultiply_spec(c as int, a as int, m as int),
        r <= c,
{
    mul_value(c, a, m)
}

/// Undo premultiplication of color channel `c` by alpha `a`.
pub fn unpremultiply(c: u32, a: u32, m: u32) -> (r: u32)
    requires
        is_max(m as int),
        c <= m,
        a <= m,
    ensures
        r == unpremultiply_spec(c as int, a as int, m as int),
        r <= m,
{
    if a == 0 {
        0
    } else {
        div_value(c, a, m)
    }
}

/// Decoding a premultiplied color whose alpha is zero gives zero, at every
/// channel width.
pub proof fn lemma_unpremultiply_transparent(c: int, m: int)
    requires
        is_max(m),
        0 <= c <= m,
    ensures
        unpremultiply_spec(c, 0, m) == 0,
{
}

/// Premultiplying a straight color and decoding it again under the same
/// nonzero alpha gives the color back, up to the resolution that the
/// premultiplied value keeps: never more, and less by under `m / a` plus
/// one half.  At full opacity the color comes back exactly.
pub proof fn lemma_premultiply_round_trip(c: int, a: int, m: int)
    requires
        is_max(m),
        0 <= c <= m,
        0 < a <= m,
    ensures
        unpremultiply_spec(premultiply_spec(c, a, m), a, m) <= c,
        2 * a * (c - unpremultiply_spec(premultiply_spec(c, a, m), a, m)) < 2 * m + a,
        a == m ==> unpremultiply_spec(premultiply_spec(c, a, m), a, m) == c,
{
    let e = c * a / m;
    let r = c * a - m * e;
    assert(0 <= r < m) by (nonlinear_arith)
        requires e == c * a / m, r == c * a - m * e, m > 0, c >= 0, a >= 0;
    assert(0 <= e <= m) by (nonlinear_arith)
        requires e == c * a / m, 0 <= c <= m, 0 <= a <= m, m > 0;
    let q = (2 * e * m + a) / (2 * a);
    // 2 * e * m == 2 * c * a - 2 * r
    assert(2 * e * m + a == 2 * a * c - 2 * r + a) by (nonlinear_arith)
        requires r == c * a - m * e;
    assert(q <= c) by (nonlinear_arith)
        requires q == (2 * e * m + a) / (2 * a), 2 * e * m + a == 2 * a * c - 2 * r + a, r >= 0, a > 0;
    assert(2 * a * (c - q) < 2 * m + a) by (nonlinear_arith)
        requires q == (2 * e * m + a) / (2 * a), 2 * e * m + a == 2 * a * c - 2 * r + a, r < m, a > 0;
    assert(div_spec(e, a, m) == q);
    if a == m {
        assert(e == c) by (nonlinear_arith)
            requires e == c * a / m, a == m, m > 0;
        assert(q == c) by (nonlinear_arith)
            requires q == (2 * e * m + a) / (2 * a), e == c, a == m, m > 0;
    }
}

/// How color channels relate to alpha.
pub trait AlphaMode: Copy {
    /// Color channels are stored multiplied by alpha.
    spec fn premultiplied() -> bool;

    /// Color channels are stored multiplied by alpha.
    fn is_premultiplied() -> (b: bool)
        ensures
            b == Self::premultiplied(),
    ;
}

/// Color channels independent of alpha.
#[derive(Clone, Copy, Debug, Default, PartialEq, Eq, Structural)]
pub struct Straight;

/// Color channels multiplied by alpha.
#[derive(Clone, Copy, Debug, Default, PartialEq, Eq, Structural)]
pub struct Premultiplied;

impl AlphaMode for Straight {
    open spec fn premultiplied() -> bool {
        false
    }

    fn is_premultiplied() -> (b: bool) {
        false
    }
}

impl AlphaMode for Premultiplied {
    open spec fn premultiplied() -> bool {
        true
    }

    fn is_premultiplied() -> (b: bool) {
        true
    }
}

/// Alpha channel of a pixel: either stored, or absent and fully opaque.
pub trait AChannel<C: Channel>: Copy + Sized {
    /// What the alpha channel is written with (`()` when it is absent).
    type Raw;

    /// The channel is stored.
    spec fn stored() -> bool;

    /// Alpha value.
    spec fn value(self) -> int;

    /// Alpha value written as `r`.
    spec fn raw_int(r: Self::Raw) -> int;

    /// The channel is stored.
    fn is_stored() -> (b: bool)
        ensures
            b == Self::stored(),
    ;

    /// Alpha value.
    fn to_u32(self) -> (v: u32)
        ensures
            v == self.value(),
            v <= C::max_value(),
            !Self::stored() ==> v == C::max_value(),
    ;

    /// Alpha channel of value `v`; an absent channel stays opaque.
    fn from_u32(v: u32) -> (a: Self)
        requires
            v <= C::max_value(),
        ensures
            a.value() == if Self::stored() { v as int } else { C::max_value() },
    ;

    /// Alpha channel written as `r`.
    fn from_raw(r: Self::Raw) -> (a: Self)
        ensures
            a.value() == Self::raw_int(r),
    ;
}

/// Absent alpha channel: the pixel is opaque.
#[derive(Clone, Copy, Debug, Default, PartialEq, Eq, Structural)]
pub struct Opaque;

/// Stored alpha channel.
#[derive(Copy, Debug, Default, PartialEq, Eq)]
pub struct Translucent<C> {
    value: C,
}

impl<C: Copy> Clone for Translucent<C> {
    fn clone(&self) -> (r: Self)
        ensures
            r == *self,
    {
        *self
    }
}

impl<C: Channel> AChannel<C> for Opaque {
    type Raw = ();

    open spec fn stored() -> bool {
        false
    }

    open spec fn value(self) -> int {
        C::max_value()
    }

    open spec fn raw_int(r: ()) -> int {
        C::max_value()
    }

    fn is_stored() -> (b: bool) {
        false
    }

    fn to_u32(self) -> (v: u32) {
        C::max_u32()
    }

    fn from_u32(v: u32) -> (a: Self) {
        Opaque
    }

    fn from_raw(r: ()) -> (a: Self) {
        Opaque
    }
}

impl<C: Channel> AChannel<C> for Translucent<C> {
    type Raw = C::Raw;

    open spec fn stored() -> bool {
        true
    }

    closed spec fn value(self) -> int {
        self.value.value()
    }

    open spec fn raw_int(r: C::Raw) -> int {
        C::raw_int(r)
    }

    fn is_stored() -> (b: bool) {
        true
    }

    fn to_u32(self) -> (v: u32) {
        self.value.to_u32()
    }

    fn from_u32(v: u32) -> (a: Self) {
        Translucent { value: C::from_u32(v) }
    }

    fn from_raw(r: C::Raw) -> (a: Self) {
        Translucent { value: C::from_raw(r) }
    }
}

} // verus!
