//! Fixed-point channels and the arithmetic shared by every format.
use vstd::prelude::*;

verus! {

/// The largest value of a channel of eight bits.
pub const MAX8: u32 = 255;

/// The largest value of a channel of sixteen bits.
pub const MAX16: u32 = 65535;

/// The largest value of a supported channel width.
pub open spec fn is_max(m: int) -> bool {
    m == 255 || m == 65535
}

/// A value `v` of a channel whose maximum is `from`, in a channel whose
/// maximum is `to`: widening replicates the bits (`v * 257`), narrowing
/// drops the low eight bits.
pub open spec fn rescale(v: int, from: int, to: int) -> int {
    if from == to {
        v
    } else if from < to {
        v * 257
    } else {
        v / 256
    }
}

/// Channel product, rounded down: `a * b / m`.
pub open spec fn mul_spec(a: int, b: int, m: int) -> int {
    a * b / m
}

/// Channel quotient `a / b` scaled to `m`, rounded half up and clamped to `m`.
pub open spec fn div_spec(a: int, b: int, m: int) -> int {
    let q = (2 * a * m + b) / (2 * b);
    if q > m {
        m
    } else {
        q
    }
}

/// Saturating channel sum.
pub open spec fn add_spec(a: int, b: int, m: int) -> int {
    if a + b > m {
        m
    } else {
        a + b
    }
}

/// Saturating channel difference.
pub open spec fn sub_spec(a: int, b: int) -> int {
    if a < b {
        0
    } else {
        a - b
    }
}

/// Convert a channel value between widths.
pub fn rescale_value(v: u32, from: u32, to: u32) -> (r: u32)
    requires
        is_max(from as int),
        is_max(to as int),
        v <= from,
    ensures
        r == rescale(v as int, from as int, to as int),
        r <= to,
{
    if from == to {
        v
    } else if from < to {
        v * 257
    } else {
        v / 256
    }
}

/// Multiply two channel values.
pub fn mul_value(a: u32, b: u32, m: u32) -> (r: u32)
    requires
        is_max(m as int),
        a <= m,
        b <= m,
    ensures
        r == mul_spec(a as int, b as int, m as int),
        r <= a,
        r <= b,
{
    proof {
        assert(a * b <= m * b) by (nonlinear_arith)
            requires a <= m;
        assert(a * b <= a * m) by (nonlinear_arith)
            requires b <= m;
        assert(a * b / (m as int) <= b) by (nonlinear_arith)
            requires a * b <= m * b, m > 0;
        assert(a * b / (m as int) <= a) by (nonlinear_arith)
            requires a * b <= a * m, m > 0;
    }
    a * b / m
}

/// Divide channel value `a` by `b`, scaled to the channel's range.
pub fn div_value(a: u32, b: u32, m: u32) -> (r: u32)
    requires
        is_max(m as int),
        a <= m,
        0 < b <= m,
    ensures
        r == div_spec(a as int, b as int, m as int),
        r <= m,
{
    proof {
        assert(a * m <= 65535 * 65535) by (nonlinear_arith)
            requires a <= m, m <= 65535;
    }
    let n: u64 = 2 * ((a as u64) * (m as u64)) + (b as u64);
    let q: u64 = n / (2 * (b as u64));
    if q > m as u64 {
        m
    } else {
        q as u32
    }
}

/// Add two channel values, saturating at `m`.
pub fn add_value(a: u32, b: u32, m: u32) -> (r: u32)
    requires
        is_max(m as int),
        a <= m,
        b <= m,
    ensures
        r == add_spec(a as int, b as int, m as int),
        r <= m,
{
    if a + b > m {
        m
    } else {
        a + b
    }
}

/// Subtract channel value `b` from `a`, saturating at zero.
pub fn sub_value(a: u32, b: u32) -> (r: u32)
    ensures
        r == sub_spec(a as int, b as int),
        r <= a,
{
    if a < b {
        0
    } else {
        a - b
    }
}

/// Narrowing a widened eight-bit value gives it back.
pub proof fn lemma_widen_narrow(v: int)
    requires
        0 <= v <= 255,
    ensures
        rescale(rescale(v, 255, 65535), 65535, 255) == v,
{
}

/// Widening a narrowed sixteen-bit value keeps its high eight bits; the
/// low eight bits become a copy of them.
pub proof fn lemma_narrow_widen(v: int)
    requires
        0 <= v <= 65535,
    ensures
        rescale(rescale(v, 65535, 255), 255, 65535) / 256 == v / 256,
        rescale(rescale(v, 65535, 255), 255, 65535) % 256 == v / 256,
        v - 255 <= rescale(rescale(v, 65535, 255), 255, 65535) <= v + 255,
{
}

/// A fixed-point channel.
pub trait Channel: Copy + Sized {
    /// Integer type a value of the channel is written with.
    type Raw;

    /// Value of the channel, from zero to `max_value()`.
    spec fn value(self) -> int;

    /// Largest value of the channel.
    spec fn max_value() -> int;

    /// Value written as `r`.
    spec fn raw_int(r: Self::Raw) -> int;

    /// The largest value is that of a supported width.
    proof fn lemma_max()
        ensures
            is_max(Self::max_value()),
    ;

    /// Largest value of the channel.
    fn max_u32() -> (m: u32)
        ensures
            m == Self::max_value(),
            is_max(m as int),
    ;

    /// Value of the channel.
    fn to_u32(self) -> (v: u32)
        ensures
            v == self.value(),
            v <= Self::max_value(),
    ;

    /// Channel of value `v`.
    fn from_u32(v: u32) -> (c: Self)
        requires
            v <= Self::max_value(),
        ensures
            c.value() == v,
    ;

    /// Channel written as `r`.
    fn from_raw(r: Self::Raw) -> (c: Self)
        ensures
            c.value() == Self::raw_int(r),
    ;
}

/// Channel of eight bits.
#[derive(Clone, Copy, Debug, Default, PartialEq, Eq, Structural)]
pub struct Ch8(pub u8);

/// Channel of sixteen bits.
#[derive(Clone, Copy, Debug, Default, PartialEq, Eq, Structural)]
pub struct Ch16(pub u16);

impl Ch8 {
    /// Channel of value `v`.
    pub fn new(v: u8) -> (c: Ch8)
        ensures
            c.0 == v,
    {
        Ch8(v)
    }
}

impl Ch16 {
    /// Channel of value `v`.
    pub fn new(v: u16) -> (c: Ch16)
        ensures
            c.0 == v,
    {
        Ch16(v)
    }
}

impl Channel for Ch8 {
    type Raw = u8;

    open spec fn value(self) -> int {
        self.0 as int
    }

    open spec fn max_value() -> int {
        255
    }

    open spec fn raw_int(r: u8) -> int {
        r as int
    }

    proof fn lemma_max() {
    }

    fn max_u32() -> (m: u32) {
        MAX8
    }

    fn to_u32(self) -> (v: u32) {
        self.0 as u32
    }

    fn from_u32(v: u32) -> (c: Self) {
        Ch8(v as u8)
    }

    fn from_raw(r: u8) -> (c: Self) {
        Ch8(r)
    }
}

impl Channel for Ch16 {
    type Raw = u16;

    open spec fn value(self) -> int {
        self.0 as int
    }

    open spec fn max_value() -> int {
        65535
    }

    open spec fn raw_int(r: u16) -> int {
        r as int
    }

    proof fn lemma_max() {
    }

    fn max_u32() -> (m: u32) {
        MAX16
    }

    fn to_u32(self) -> (v: u32) {
        self.0 as u32
    }

    fn from_u32(v: u32) -> (c: Self) {
        Ch16(v as u16)
    }

    fn from_raw(r: u16) -> (c: Self) {
        Ch16(r)
    }
}

/// Convert a channel to another width.
pub fn convert_channel<S: Channel, D: Channel>(c: S) -> (r: D)
    ensures
        r.value() == rescale(c.value(), S::max_value(), D::max_value()),
{
    D::from_u32(rescale_value(c.to_u32(), S::max_u32(), D::max_u32()))
}

} // verus!
