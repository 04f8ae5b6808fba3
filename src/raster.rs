//! Regions and rasters of pixels, and compositing onto them.
use vstd::prelude::*;
use vstd::std_specs::convert::FromSpec;
use vstd::arithmetic::div_mod::{lemma_fundamental_div_mod, lemma_fundamental_div_mod_converse};
use crate::ops::PorterDuff;
use crate::pixel::{
    convert_pixel, convert_spec, ints, normal, pack, pack_spec, stored_count, stored_count_of, unpack,
    unpack_spec, valid_format, Pixel,
};

verus! {

/// The smaller of two values.
pub open spec fn min(a: int, b: int) -> int {
    if a <= b {
        a
    } else {
        b
    }
}

/// The larger of two values.
pub open spec fn max(a: int, b: int) -> int {
    if a >= b {
        a
    } else {
        b
    }
}

/// Extent of `v` as the region stores it: a value beyond the largest
/// `i32` gives an empty extent.
pub open spec fn extent(v: int) -> int {
    if v <= i32::MAX {
        v
    } else {
        0
    }
}

/// Location and dimensions of a rectangle of pixels.
#[derive(Clone, Copy, Debug, PartialEq, Eq, Structural)]
pub struct Region {
    x: i32,
    y: i32,
    width: i32,
    height: i32,
}

impl Region {
    /// The extent is never negative.
    #[verifier::type_invariant]
    spec fn inv(self) -> bool {
        self.width >= 0 && self.height >= 0
    }

    /// Left edge.
    pub closed spec fn left(self) -> int {
        self.x as int
    }

    /// Top edge.
    pub closed spec fn top(self) -> int {
        self.y as int
    }

    /// Width.
    pub closed spec fn w(self) -> int {
        self.width as int
    }

    /// Height.
    pub closed spec fn h(self) -> int {
        self.height as int
    }

    /// Right edge, saturating at the largest `i32`.
    pub open spec fn right_spec(self) -> int {
        min(self.left() + self.w(), i32::MAX as int)
    }

    /// Bottom edge, saturating at the largest `i32`.
    pub open spec fn bottom_spec(self) -> int {
        min(self.top() + self.h(), i32::MAX as int)
    }

    /// Pixel (`x`, `y`) lies in the region.
    pub open spec fn contains(self, x: int, y: int) -> bool {
        self.left() <= x < self.left() + self.w() && self.top() <= y < self.top() + self.h()
    }

    /// Region at (`x`, `y`) of `width` by `height`; an extent beyond the
    /// largest `i32` is empty.
    pub closed spec fn new_spec(x: i32, y: i32, width: u32, height: u32) -> Region {
        Region { x, y, width: extent(width as int) as i32, height: extent(height as int) as i32 }
    }

    /// Create a region.  A width or height beyond the largest `i32` gives an
    /// empty region.
    pub fn new(x: i32, y: i32, width: u32, height: u32) -> (r: Region)
        ensures
            r == Region::new_spec(x, y, width, height),
            r.left() == x,
            r.top() == y,
            r.w() == extent(width as int),
            r.h() == extent(height as int),
    {
        let width: i32 = if width <= i32::MAX as u32 {
            width as i32
        } else {
            0
        };
        let height: i32 = if height <= i32::MAX as u32 {
            height as i32
        } else {
            0
        };
        Region { x, y, width, height }
    }

    /// Intersection of `a` and `b`: the overlapping rectangle, or an empty
    /// region where they do not overlap.
    pub open spec fn intersection_spec(a: Region, b: Region) -> Region {
        let x0 = max(a.left(), b.left());
        let y0 = max(a.top(), b.top());
        Region::new_spec(
            x0 as i32,
            y0 as i32,
            max(min(a.right_spec(), b.right_spec()) - x0, 0) as u32,
            max(min(a.bottom_spec(), b.bottom_spec()) - y0, 0) as u32,
        )
    }

    /// Intersection with another region: the overlapping rectangle, or an
    /// empty region where they do not overlap.
    pub fn intersection(self, rhs: Region) -> (r: Region)
        ensures
            r == Region::intersection_spec(self, rhs),
            r.left() == max(self.left(), rhs.left()),
            r.top() == max(self.top(), rhs.top()),
            r.w() == max(min(self.right_spec(), rhs.right_spec()) - max(self.left(), rhs.left()), 0),
            r.h() == max(min(self.bottom_spec(), rhs.bottom_spec()) - max(self.top(), rhs.top()), 0),
    {
        let x0 = if self.x >= rhs.x {
            self.x
        } else {
            rhs.x
        };
        let r0 = self.right();
        let r1 = rhs.right();
        let x1 = if r0 <= r1 {
            r0
        } else {
            r1
        };
        let w: u32 = if x1 > x0 {
            (x1 - x0) as u32
        } else {
            0
        };
        let y0 = if self.y >= rhs.y {
            self.y
        } else {
            rhs.y
        };
        let b0 = self.bottom();
        let b1 = rhs.bottom();
        let y1 = if b0 <= b1 {
            b0
        } else {
            b1
        };
        let h: u32 = if y1 > y0 {
            (y1 - y0) as u32
        } else {
            0
        };
        Region::new(x0, y0, w, h)
    }

    /// Width.
    fn width(self) -> (w: u32)
        ensures
            w == self.w(),
    {
        proof {
            use_type_invariant(self);
        }
        self.width as u32
    }

    /// Height.
    fn height(self) -> (h: u32)
        ensures
            h == self.h(),
    {
        proof {
            use_type_invariant(self);
        }
        self.height as u32
    }

    /// Right edge.
    fn right(self) -> (r: i32)
        ensures
            r == self.right_spec(),
    {
        proof {
            use_type_invariant(self);
        }
        if self.x as i64 + self.width as i64 > i32::MAX as i64 {
            i32::MAX
        } else {
            self.x + self.width
        }
    }

    /// Bottom edge.
    fn bottom(self) -> (b: i32)
        ensures
            b == self.bottom_spec(),
    {
        proof {
            use_type_invariant(self);
        }
        if self.y as i64 + self.height as i64 > i32::MAX as i64 {
            i32::MAX
        } else {
            self.y + self.height
        }
    }
}

/// The origin and extent of a region made by `Region::new_spec`.
pub broadcast proof fn lemma_new_spec(x: i32, y: i32, width: u32, height: u32)
    ensures
        #![trigger Region::new_spec(x, y, width, height)]
        Region::new_spec(x, y, width, height).left() == x,
        Region::new_spec(x, y, width, height).top() == y,
        Region::new_spec(x, y, width, height).w() == extent(width as int),
        Region::new_spec(x, y, width, height).h() == extent(height as int),
{
}

/// Intersecting a region with the whole plane of nonnegative coordinates
/// leaves it unchanged, where it lies in that plane.
pub proof fn lemma_intersection_plane(r: Region)
    requires
        r.w() >= 0,
        r.h() >= 0,
        r.left() >= 0,
        r.top() >= 0,
        r.left() + r.w() <= i32::MAX,
        r.top() + r.h() <= i32::MAX,
    ensures
        Region::intersection_spec(r, Region::new_spec(0, 0, i32::MAX as u32, i32::MAX as u32)) == r,
{
}

/// Intersection does not depend on the order of the regions.
pub proof fn lemma_intersection_commutes(a: Region, b: Region)
    ensures
        Region::intersection_spec(a, b) == Region::intersection_spec(b, a),
{
}

/// Regions that lie apart, side by side or one above the other, intersect
/// in an empty region.
pub proof fn lemma_intersection_disjoint(a: Region, b: Region)
    requires
        a.right_spec() <= b.left() || b.right_spec() <= a.left() || a.bottom_spec() <= b.top()
            || b.bottom_spec() <= a.top(),
    ensures
        Region::intersection_spec(a, b).w() == 0 || Region::intersection_spec(a, b).h() == 0,
{
}

impl From<(i32, i32, u32, u32)> for Region {
    /// Region of (*x*, *y*, *width*, *height*).
    fn from(r: (i32, i32, u32, u32)) -> (reg: Region) {
        Region::new(r.0, r.1, r.2, r.3)
    }
}

impl vstd::std_specs::convert::FromSpecImpl<(i32, i32, u32, u32)> for Region {
    open spec fn obeys_from_spec() -> bool {
        true
    }

    open spec fn from_spec(r: (i32, i32, u32, u32)) -> Region {
        Region::new_spec(r.0, r.1, r.2, r.3)
    }
}

impl From<()> for Region {
    /// The whole plane: every pixel with nonnegative coordinates.
    fn from(u: ()) -> (reg: Region) {
        Region::new(0, 0, i32::MAX as u32, i32::MAX as u32)
    }
}

impl vstd::std_specs::convert::FromSpecImpl<()> for Region {
    open spec fn obeys_from_spec() -> bool {
        true
    }

    open spec fn from_spec(u: ()) -> Region {
        Region::new_spec(0, 0, i32::MAX as u32, i32::MAX as u32)
    }
}

/// Cell (`c`, `r`) of a raster `w` wide lies at index `r * w + c`, inside a
/// raster of `w * h` cells, and that index gives back its column and row.
proof fn lemma_cell(w: int, h: int, c: int, r: int)
    requires
        0 <= c < w,
        0 <= r < h,
    ensures
        0 <= r * w + c < w * h,
        (r * w + c) % w == c,
        (r * w + c) / w == r,
{
    assert(0 <= r * w + c < w * h) by (nonlinear_arith)
        requires 0 <= c < w, 0 <= r < h;
    lemma_fundamental_div_mod_converse(r * w + c, w, r, c);
}

/// Image arranged as a rectangular array of pixels, row by row.
pub struct Raster<P: Pixel> {
    width: i32,
    height: i32,
    pixels: Vec<P>,
}

/// The rows of a raster, as slices of pixels, top to bottom.
pub struct Rows<'a, P: Pixel> {
    rest: &'a [P],
    width: usize,
}

impl<'a, P: Pixel> Rows<'a, P> {
    /// Pixels of the rows not yet handed out.
    pub closed spec fn remaining(self) -> Seq<P> {
        self.rest@
    }

    /// Width of a row.
    pub closed spec fn row_width(self) -> int {
        self.width as int
    }

    /// Rows of `raster`.
    fn new(raster: &'a Raster<P>) -> (r: Self)
        requires
            raster.wf(),
        ensures
            r.remaining() == raster.cells(),
            r.row_width() == raster.w(),
    {
        Rows { rest: raster.pixels.as_slice(), width: raster.width as usize }
    }

    /// The next row, or `None` when every row has been handed out.
    pub fn next(&mut self) -> (row: Option<&'a [P]>)
        ensures
            final(self).row_width() == old(self).row_width(),
            old(self).row_width() > 0 && old(self).remaining().len() >= old(self).row_width() ==> {
                &&& row is Some
                &&& row.unwrap()@ == old(self).remaining().subrange(0, old(self).row_width())
                &&& final(self).remaining() == old(self).remaining().subrange(
                    old(self).row_width(),
                    old(self).remaining().len() as int,
                )
            },
            !(old(self).row_width() > 0 && old(self).remaining().len() >= old(self).row_width()) ==> {
                &&& row is None
                &&& final(self).remaining() == old(self).remaining()
            },
    {
        if self.width > 0 && self.rest.len() >= self.width {
            let (row, tail) = self.rest.split_at(self.width);
            self.rest = tail;
            Some(row)
        } else {
            None
        }
    }
}

/// The rows of a raster, as mutable slices of pixels, top to bottom.
pub struct RowsMut<'a, P: Pixel> {
    rest: Option<&'a mut [P]>,
    width: usize,
}

impl<'a, P: Pixel> RowsMut<'a, P> {
    /// Pixels of the rows not yet handed out.
    pub closed spec fn remaining(self) -> Seq<P> {
        match self.rest {
            Some(s) => s@,
            None => Seq::empty(),
        }
    }

    /// Width of a row.
    pub closed spec fn row_width(self) -> int {
        self.width as int
    }

    /// Rows of `raster`.
    fn new(raster: &'a mut Raster<P>) -> (r: Self)
        requires
            old(raster).wf(),
        ensures
            r.remaining() == old(raster).cells(),
            r.row_width() == old(raster).w(),
            final(raster).w() == old(raster).w(),
            final(raster).h() == old(raster).h(),
    {
        let width = raster.width as usize;
        RowsMut { rest: Some(raster.pixels.as_mut_slice()), width }
    }

    /// The next row, or `None` when every row has been handed out.
    pub fn next(&mut self) -> (row: Option<&'a mut [P]>)
        ensures
            final(self).row_width() == old(self).row_width(),
            old(self).row_width() > 0 && old(self).remaining().len() >= old(self).row_width() ==> {
                &&& row is Some
                &&& row.unwrap()@ == old(self).remaining().subrange(0, old(self).row_width())
                &&& final(self).remaining() == old(self).remaining().subrange(
                    old(self).row_width(),
                    old(self).remaining().len() as int,
                )
            },
            !(old(self).row_width() > 0 && old(self).remaining().len() >= old(self).row_width()) ==> {
                &&& row is None
                &&& final(self).remaining() == old(self).remaining()
            },
    {
        match self.rest.take() {
            Some(rest) => {
                if self.width > 0 && rest.len() >= self.width {
                    let (row, tail) = rest.split_at_mut(self.width);
                    self.rest = Some(tail);
                    Some(row)
                } else {
                    self.rest = Some(rest);
                    None
                }
            },
            None => None,
        }
    }
}

/// Pixel `new` is pixel `old` with `clr` composited onto it by `O`.
pub open spec fn blended<P: Pixel, O: PorterDuff>(new: P, old: P, clr: P) -> bool {
    new.channels() == O::blend_spec(P::format_spec(), old.channels(), clr.channels())
}

/// Region `reg` clipped to a raster of `w` by `h`.
pub open spec fn clip_spec(reg: Region, w: int, h: int) -> Region {
    let x0 = max(reg.left(), 0);
    let y0 = max(reg.top(), 0);
    Region::new_spec(
        x0 as i32,
        y0 as i32,
        max(min(reg.right_spec(), w) - x0, 0) as u32,
        max(min(reg.bottom_spec(), h) - y0, 0) as u32,
    )
}

/// Placement of a raster composite: destination column and row of the
/// first pixel, source column and row of it, and the number of columns and
/// rows blended.  Both regions are clipped to their own raster; the
/// smaller clipped extent is blended in each axis, shifted by the part of
/// the other region that was clipped off at its left or top; what does not
/// fit either raster is left out.
pub open spec fn window_spec(to: Region, from: Region, w: int, h: int, sw: int, sh: int) -> (
    int,
    int,
    int,
    int,
    int,
    int,
) {
    let t = clip_spec(to, w, h);
    let f = clip_spec(from, sw, sh);
    let cw = min(t.w(), f.w());
    let ch = min(t.h(), f.h());
    let dx = t.left() - min(from.left(), 0);
    let dy = t.top() - min(from.top(), 0);
    let sx = f.left() - min(to.left(), 0);
    let sy = f.top() - min(to.top(), 0);
    if cw > 0 && ch > 0 {
        (dx, dy, sx, sy, min(min(cw, w - dx), sw - sx), min(min(ch, h - dy), sh - sy))
    } else {
        (0, 0, 0, 0, 0, 0)
    }
}

/// Cell (`c`, `r`) lies in the destination part of placement `p`.
pub open spec fn in_window(p: (int, int, int, int, int, int), c: int, r: int) -> bool {
    p.0 <= c < p.0 + p.4 && p.1 <= r < p.1 + p.5
}

impl<P: Pixel> Raster<P> {
    /// Width and height are within the positive range of `i32`, and so is
    /// their product, the number of pixels.
    pub closed spec fn wf(self) -> bool {
        &&& self.width >= 0
        &&& self.height >= 0
        &&& self.width * self.height <= i32::MAX
        &&& self.pixels@.len() == self.width * self.height
    }

    /// Width.
    pub closed spec fn w(self) -> int {
        self.width as int
    }

    /// Height.
    pub closed spec fn h(self) -> int {
        self.height as int
    }

    /// Pixels, row by row.
    pub closed spec fn cells(self) -> Seq<P> {
        self.pixels@
    }

    /// Construct a `Raster` with all pixels set to one color.
    pub fn with_color(width: u32, height: u32, clr: P) -> (r: Self)
        requires
            width <= i32::MAX,
            height <= i32::MAX,
            width * height <= i32::MAX,
        ensures
            r.wf(),
            r.w() == width,
            r.h() == height,
            r.cells() == Seq::new((width * height) as nat, |i: int| clr),
    {
        let len = width as usize * height as usize;
        let mut pixels: Vec<P> = Vec::new();
        let mut i: usize = 0;
        while i < len
            invariant
                len == width * height,
                i <= len,
                pixels@ == Seq::new(i as nat, |j: int| clr),
            decreases len - i,
        {
            pixels.push(clr);
            i += 1;
        }
        Raster { width: width as i32, height: height as i32, pixels }
    }

    /// Construct a `Raster` with all pixels blank (see `Pixel::blank`).
    pub fn with_clear(width: u32, height: u32) -> (r: Self)
        requires
            width <= i32::MAX,
            height <= i32::MAX,
            width * height <= i32::MAX,
        ensures
            r.wf(),
            r.w() == width,
            r.h() == height,
            forall|i: int| 0 <= i < r.cells().len() ==> #[trigger] r.cells()[i].channels()
                == crate::pixel::blank_spec(P::format_spec()),
    {
        Self::with_color(width, height, P::blank())
    }

    /// Construct a `Raster` from another one, converting each pixel to
    /// format `P`.
    pub fn with_raster<S: Pixel>(src: &Raster<S>) -> (r: Self)
        requires
            src.wf(),
        ensures
            r.wf(),
            r.w() == src.w(),
            r.h() == src.h(),
            r.cells().len() == src.cells().len(),
            forall|i: int| 0 <= i < r.cells().len() ==> #[trigger] r.cells()[i].channels()
                == convert_spec(S::format_spec(), P::format_spec(), src.cells()[i].channels()),
    {
        let len = src.pixels.len();
        let mut pixels: Vec<P> = Vec::new();
        let mut i: usize = 0;
        while i < len
            invariant
                len == src.pixels@.len(),
                i <= len,
                pixels@.len() == i,
                forall|j: int| 0 <= j < i ==> #[trigger] pixels@[j].channels()
                    == convert_spec(S::format_spec(), P::format_spec(), src.pixels@[j].channels()),
            decreases len - i,
        {
            let p: P = convert_pixel(src.pixels[i]);
            pixels.push(p);
            i += 1;
        }
        Raster { width: src.width, height: src.height, pixels }
    }

    /// Construct a `Raster` that owns `pixels`, row by row.
    pub fn with_pixels(width: u32, height: u32, pixels: Vec<P>) -> (r: Self)
        requires
            width <= i32::MAX,
            height <= i32::MAX,
            width * height <= i32::MAX,
            pixels@.len() == width * height,
        ensures
            r.wf(),
            r.w() == width,
            r.h() == height,
            r.cells() == pixels@,
    {
        Raster { width: width as i32, height: height as i32, pixels }
    }

    /// Construct a `Raster` from the stored channels `words` of its pixels,
    /// row by row, each pixel's channels in the order of its fields.
    fn with_words(width: u32, height: u32, words: Vec<u32>) -> (r: Self)
        requires
            width <= i32::MAX,
            height <= i32::MAX,
            width * height <= i32::MAX,
            words@.len() == width * height * stored_count(P::format_spec()),
            forall|i: int| 0 <= i < words@.len() ==> #[trigger] words@[i] <= P::format_spec().max,
        ensures
            r.wf(),
            r.w() == width,
            r.h() == height,
            forall|i: int| 0 <= i < width * height ==> #[trigger] r.cells()[i].channels() == unpack_spec(
                P::format_spec(),
                words@.map_values(|v: u32| v as int).subrange(
                    i * stored_count(P::format_spec()),
                    i * stored_count(P::format_spec()) + stored_count(P::format_spec()),
                ),
            ),
    {
        let f = P::format();
        let n = stored_count_of(f);
        let len = width as usize * height as usize;
        let mut pixels: Vec<P> = Vec::new();
        let mut i: usize = 0;
        let mut base: usize = 0;
        let wlen = words.len();
        while i < len
            invariant
                wlen == words@.len(),
                f == P::format_spec(),
                valid_format(f),
                n == stored_count(f),
                len == width * height,
                words@.len() == len * n,
                forall|k: int| 0 <= k < words@.len() ==> #[trigger] words@[k] <= f.max,
                i <= len,
                base == i * n,
                pixels@.len() == i,
                forall|j: int| 0 <= j < i ==> #[trigger] pixels@[j].channels() == unpack_spec(
                    f,
                    words@.map_values(|v: u32| v as int).subrange(j * n, j * n + n),
                ),
            decreases len - i,
        {
            proof {
                assert(base + n <= len * n) by (nonlinear_arith)
                    requires base == i * n, i < len, n >= 1;
                assert(base + n == (i + 1) * n) by (nonlinear_arith)
                    requires base == i * n;
            }
            let c = unpack(f, &words, base);
            pixels.push(P::from_native(c));
            i += 1;
            base += n;
        }
        Raster { width: width as i32, height: height as i32, pixels }
    }

    /// Construct a `Raster` of eight-bit pixels from a buffer of their
    /// channels, row by row, each pixel's channels in the order of its
    /// fields.
    pub fn with_u8_buffer(width: u32, height: u32, buffer: Vec<u8>) -> (r: Self)
        requires
            P::format_spec().max == 255,
            width <= i32::MAX,
            height <= i32::MAX,
            0 < width * height <= i32::MAX,
            buffer@.len() == width * height * stored_count(P::format_spec()),
        ensures
            r.wf(),
            r.w() == width,
            r.h() == height,
            forall|i: int| 0 <= i < width * height ==> #[trigger] r.cells()[i].channels() == unpack_spec(
                P::format_spec(),
                buffer@.map_values(|v: u8| v as int).subrange(
                    i * stored_count(P::format_spec()),
                    i * stored_count(P::format_spec()) + stored_count(P::format_spec()),
                ),
            ),
    {
        let mut words: Vec<u32> = Vec::new();
        let mut i: usize = 0;
        while i < buffer.len()
            invariant
                i <= buffer@.len(),
                words@.map_values(|v: u32| v as int) == buffer@.map_values(|v: u8| v as int).subrange(0, i as int),
                words@.len() == i,
                forall|k: int| 0 <= k < i ==> #[trigger] words@[k] <= 255,
            decreases buffer@.len() - i,
        {
            words.push(buffer[i] as u32);
            i += 1;
            assert(words@.map_values(|v: u32| v as int) =~= buffer@.map_values(|v: u8| v as int).subrange(0, i as int));
        }
        assert(buffer@.map_values(|v: u8| v as int).subrange(0, i as int) =~= buffer@.map_values(|v: u8| v as int));
        Self::with_words(width, height, words)
    }

    /// Construct a `Raster` of sixteen-bit pixels from a buffer of their
    /// channels, row by row, each pixel's channels in the order of its
    /// fields.
    pub fn with_u16_buffer(width: u32, height: u32, buffer: Vec<u16>) -> (r: Self)
        requires
            P::format_spec().max == 65535,
            width <= i32::MAX,
            height <= i32::MAX,
            0 < width * height <= i32::MAX,
            buffer@.len() == width * height * stored_count(P::format_spec()),
        ensures
            r.wf(),
            r.w() == width,
            r.h() == height,
            forall|i: int| 0 <= i < width * height ==> #[trigger] r.cells()[i].channels() == unpack_spec(
                P::format_spec(),
                buffer@.map_values(|v: u16| v as int).subrange(
                    i * stored_count(P::format_spec()),
                    i * stored_count(P::format_spec()) + stored_count(P::format_spec()),
                ),
            ),
    {
        let mut words: Vec<u32> = Vec::new();
        let mut i: usize = 0;
        while i < buffer.len()
            invariant
                i <= buffer@.len(),
                words@.map_values(|v: u32| v as int) == buffer@.map_values(|v: u16| v as int).subrange(0, i as int),
                words@.len() == i,
                forall|k: int| 0 <= k < i ==> #[trigger] words@[k] <= 65535,
            decreases buffer@.len() - i,
        {
            words.push(buffer[i] as u32);
            i += 1;
            assert(words@.map_values(|v: u32| v as int) =~= buffer@.map_values(|v: u16| v as int).subrange(0, i as int));
        }
        assert(buffer@.map_values(|v: u16| v as int).subrange(0, i as int) =~= buffer@.map_values(|v: u16| v as int));
        Self::with_words(width, height, words)
    }

    /// Width.
    pub fn width(&self) -> (w: u32)
        requires
            self.wf(),
        ensures
            w == self.w(),
    {
        self.width as u32
    }

    /// Height.
    pub fn height(&self) -> (h: u32)
        requires
            self.wf(),
        ensures
            h == self.h(),
    {
        self.height as u32
    }

    /// Set every pixel blank.
    pub fn clear(&mut self)
        requires
            old(self).wf(),
        ensures
            final(self).wf(),
            final(self).w() == old(self).w(),
            final(self).h() == old(self).h(),
            final(self).cells().len() == old(self).cells().len(),
            forall|i: int| 0 <= i < final(self).cells().len() ==> #[trigger] final(self).cells()[i].channels()
                == crate::pixel::blank_spec(P::format_spec()),
    {
        let blank = P::blank();
        let len = self.pixels.len();
        let mut i: usize = 0;
        while i < len
            invariant
                self.wf(),
                self.width == old(self).width,
                self.height == old(self).height,
                len == self.pixels@.len(),
                i <= len,
                forall|j: int| 0 <= j < i ==> #[trigger] self.pixels@[j] == blank,
            decreases len - i,
        {
            self.pixels.set(i, blank);
            i += 1;
        }
    }

    /// Pixel at column `x` of row `y`.
    pub fn pixel(&self, x: i32, y: i32) -> (p: P)
        requires
            self.wf(),
            0 <= x < self.w(),
            0 <= y < self.h(),
        ensures
            p == self.cells()[y * self.w() + x],
    {
        proof {
            lemma_cell(self.width as int, self.height as int, x as int, y as int);
        }
        let i = (self.width * y + x) as usize;
        self.pixels[i]
    }

    /// Mutable reference to the pixel at column `x` of row `y`.
    pub fn pixel_mut(&mut self, x: i32, y: i32) -> (p: &mut P)
        requires
            old(self).wf(),
            0 <= x < old(self).w(),
            0 <= y < old(self).h(),
        ensures
            *p == old(self).cells()[y * old(self).w() + x],
            final(self).wf(),
            final(self).w() == old(self).w(),
            final(self).h() == old(self).h(),
            final(self).cells() == old(self).cells().update(y * old(self).w() + x, *final(p)),
    {
        proof {
            lemma_cell(self.width as int, self.height as int, x as int, y as int);
        }
        let i = (self.width * y + x) as usize;
        &mut self.pixels[i]
    }

    /// All pixels, row by row.
    pub fn pixels(&self) -> (s: &[P])
        requires
            self.wf(),
        ensures
            s@ == self.cells(),
    {
        self.pixels.as_slice()
    }

    /// All pixels, row by row, for writing.
    pub fn pixels_mut(&mut self) -> (s: &mut [P])
        requires
            old(self).wf(),
        ensures
            s@ == old(self).cells(),
            final(self).cells() == final(s)@,
            final(self).w() == old(self).w(),
            final(self).h() == old(self).h(),
            final(s)@.len() == s@.len() ==> final(self).wf(),
    {
        self.pixels.as_mut_slice()
    }

    /// The rows of the raster, top to bottom.
    pub fn rows(&self) -> (r: Rows<'_, P>)
        requires
            self.wf(),
        ensures
            r.remaining() == self.cells(),
            r.row_width() == self.w(),
    {
        Rows::new(self)
    }

    /// The rows of the raster, top to bottom, for writing.
    pub fn rows_mut(&mut self) -> (r: RowsMut<'_, P>)
        requires
            old(self).wf(),
        ensures
            r.remaining() == old(self).cells(),
            r.row_width() == old(self).w(),
            final(self).w() == old(self).w(),
            final(self).h() == old(self).h(),
    {
        RowsMut::new(self)
    }

    /// Copy of the pixels as bytes, row by row, each pixel's channels in
    /// the order of its fields: the layout `with_u8_buffer` reads.  Only for
    /// channels of eight bits, whose bytes do not depend on the machine.
    pub fn as_u8_slice(&self) -> (b: Vec<u8>)
        requires
            self.wf(),
            P::format_spec().max == 255,
        ensures
            b@.len() == self.cells().len() * stored_count(P::format_spec()),
            forall|i: int| 0 <= i < self.cells().len() ==> b@.map_values(|v: u8| v as int).subrange(
                i * stored_count(P::format_spec()),
                i * stored_count(P::format_spec()) + stored_count(P::format_spec()),
            ) == pack_spec(P::format_spec(), #[trigger] self.cells()[i].channels()),
    {
        let f = P::format();
        let n = stored_count_of(f);
        let len = self.pixels.len();
        let mut b: Vec<u8> = Vec::new();
        let mut i: usize = 0;
        while i < len
            invariant
                self.wf(),
                f == P::format_spec(),
                valid_format(f),
                f.max == 255,
                n == stored_count(f),
                len == self.pixels@.len(),
                i <= len,
                b@.len() == i * n,
                forall|j: int| 0 <= j < i ==> b@.map_values(|v: u8| v as int).subrange(j * n, j * n + n)
                    == pack_spec(f, #[trigger] self.pixels@[j].channels()),
            decreases len - i,
        {
            let w = pack(f, self.pixels[i].into_native());
            proof {
                crate::pixel::lemma_unpack_pack(f, self.pixels@[i as int].channels());
            }
            let ghost before = b@;
            let mut k: usize = 0;
            while k < w.len()
                invariant
                    f.max == 255,
                    k <= w@.len(),
                    w@.len() == n,
                    forall|t: int| 0 <= t < w@.len() ==> #[trigger] w@[t] <= f.max,
                    b@.len() == before.len() + k,
                    b@.subrange(0, before.len() as int) == before,
                    forall|t: int| 0 <= t < k ==> b@[before.len() + t] as int == w@[t] as int,
                decreases w@.len() - k,
            {
                b.push(w[k] as u8);
                k += 1;
                assert(b@.subrange(0, before.len() as int) =~= before);
            }
            proof {
                assert(i * n + n == (i + 1) * n) by (nonlinear_arith);
                let bi = b@.map_values(|v: u8| v as int);
                assert(bi.subrange(i * n, i * n + n) =~= w@.map_values(|v: u32| v as int));
                assert forall|j: int| 0 <= j < i + 1 implies bi.subrange(j * n, j * n + n)
                    == pack_spec(f, #[trigger] self.pixels@[j].channels()) by {
                    if j < i {
                        assert(j * n + n <= i * n) by (nonlinear_arith)
                            requires j < i, n >= 1;
                        assert(0 <= j * n) by (nonlinear_arith)
                            requires 0 <= j, n >= 1;
                        assert(bi.subrange(j * n, j * n + n) =~= before.map_values(|v: u8| v as int).subrange(j * n, j * n + n));
                    }
                }
            }
            i += 1;
        }
        b
    }

    /// The whole `Raster` as a region.
    pub fn region(&self) -> (r: Region)
        requires
            self.wf(),
        ensures
            r == Region::new_spec(0, 0, self.w() as u32, self.h() as u32),
    {
        Region::new(0, 0, self.width as u32, self.height as u32)
    }

    /// Clip `reg` to the raster.
    fn clip(&self, reg: Region) -> (r: Region)
        requires
            self.wf(),
        ensures
            r == clip_spec(reg, self.w(), self.h()),
            0 <= r.left(),
            0 <= r.top(),
            r.w() > 0 ==> r.left() + r.w() <= self.w(),
            r.h() > 0 ==> r.top() + r.h() <= self.h(),
    {
        proof {
            use_type_invariant(reg);
        }
        let x0 = if reg.x >= 0 {
            reg.x
        } else {
            0
        };
        let rr = reg.right();
        let x1 = if rr <= self.width {
            rr
        } else {
            self.width
        };
        let w: u32 = if x1 > x0 {
            (x1 - x0) as u32
        } else {
            0
        };
        let y0 = if reg.y >= 0 {
            reg.y
        } else {
            0
        };
        let rb = reg.bottom();
        let y1 = if rb <= self.height {
            rb
        } else {
            self.height
        };
        let h: u32 = if y1 > y0 {
            (y1 - y0) as u32
        } else {
            0
        };
        Region::new(x0, y0, w, h)
    }

    /// Intersection of a region with the raster: negative and out-of-range
    /// coordinates are clipped off.
    pub fn intersection<R>(&self, reg: R) -> (r: Region)
        where
            Region: From<R>,
        requires
            self.wf(),
        ensures
            <Region as FromSpec<R>>::obeys_from_spec()
                ==> r == clip_spec(<Region as FromSpec<R>>::from_spec(reg), self.w(), self.h()),
    {
        self.clip(Region::from(reg))
    }

    /// Composite color `clr` onto every pixel of `reg`, clipped to the
    /// raster, with operator `O`.  Pixels outside the clipped region are left
    /// as they are.
    pub fn composite_color<R, O: PorterDuff>(&mut self, reg: R, clr: P, op: O)
        where
            Region: From<R>,
        requires
            old(self).wf(),
        ensures
            final(self).wf(),
            final(self).w() == old(self).w(),
            final(self).h() == old(self).h(),
            final(self).cells().len() == old(self).cells().len(),
            <Region as FromSpec<R>>::obeys_from_spec() ==> forall|i: int|
                0 <= i < old(self).cells().len() && clip_spec(
                    <Region as FromSpec<R>>::from_spec(reg),
                    old(self).w(),
                    old(self).h(),
                ).contains(i % old(self).w(), i / old(self).w())
                    ==> blended::<P, O>(#[trigger] final(self).cells()[i], old(self).cells()[i], clr),
            <Region as FromSpec<R>>::obeys_from_spec() ==> forall|i: int|
                0 <= i < old(self).cells().len() && !clip_spec(
                    <Region as FromSpec<R>>::from_spec(reg),
                    old(self).w(),
                    old(self).h(),
                ).contains(i % old(self).w(), i / old(self).w())
                    ==> #[trigger] final(self).cells()[i] == old(self).cells()[i],
    {
        let area = self.clip(Region::from(reg));
        proof {
            use_type_invariant(area);
        }
        if area.width > 0 && area.height > 0 {
            let ghost w = self.width as int;
            let width = self.width as usize;
            let x0 = area.x as usize;
            let x1 = x0 + area.width as usize;
            let y0 = area.y as usize;
            let y1 = y0 + area.height as usize;
            let f = P::format();
            let c = clr.into_native();
            let mut y = y0;
            while y < y1
                invariant
                    self.wf(),
                    self.pixels@.len() == old(self).pixels@.len(),
                    self.width == old(self).width,
                    self.height == old(self).height,
                    w == self.width,
                    width == w,
                    f == P::format_spec(),
                    valid_format(f),
                    ints(c) == clr.channels(),
                    normal(f, ints(c)),
                    area.left() == x0,
                    area.top() == y0,
                    area.left() + area.w() == x1,
                    area.top() + area.h() == y1,
                    x0 < x1 <= w,
                    y0 <= y <= y1,
                    y1 <= self.height,
                    forall|i: int| 0 <= i < self.pixels@.len() && !(area.contains(i % w, i / w) && i / w < y)
                        ==> #[trigger] self.pixels@[i] == old(self).pixels@[i],
                    forall|i: int| 0 <= i < self.pixels@.len() && area.contains(i % w, i / w) && i / w < y
                        ==> blended::<P, O>(#[trigger] self.pixels@[i], old(self).pixels@[i], clr),
                decreases y1 - y,
            {
                let mut x = x0;
                while x < x1
                    invariant
                        self.wf(),
                        self.pixels@.len() == old(self).pixels@.len(),
                        self.width == old(self).width,
                        self.height == old(self).height,
                        w == self.width,
                        width == w,
                        f == P::format_spec(),
                        valid_format(f),
                        ints(c) == clr.channels(),
                        normal(f, ints(c)),
                        area.left() == x0,
                        area.top() == y0,
                        area.left() + area.w() == x1,
                        area.top() + area.h() == y1,
                        x0 < x1 <= w,
                        y0 <= y < y1,
                        y1 <= self.height,
                        x0 <= x <= x1,
                        forall|i: int| 0 <= i < self.pixels@.len() && !(area.contains(i % w, i / w)
                            && (i / w < y || (i / w == y && i % w < x)))
                            ==> #[trigger] self.pixels@[i] == old(self).pixels@[i],
                        forall|i: int| 0 <= i < self.pixels@.len() && area.contains(i % w, i / w)
                            && (i / w < y || (i / w == y && i % w < x))
                            ==> blended::<P, O>(#[trigger] self.pixels@[i], old(self).pixels@[i], clr),
                    decreases x1 - x,
                {
                    proof {
                        lemma_cell(w, self.height as int, x as int, y as int);
                    }
                    let i = y * width + x;
                    let ghost before = self.pixels@[i as int];
                    assert(before == old(self).pixels@[i as int]);
                    let d = O::blend(f, self.pixels[i].into_native(), c);
                    self.pixels.set(i, P::from_native(d));
                    assert(blended::<P, O>(self.pixels@[i as int], old(self).pixels@[i as int], clr));
                    assert forall|j: int| 0 <= j < self.pixels@.len() && #[trigger] (j / w) == y && j % w == x implies j == i by {
                        lemma_fundamental_div_mod(j, w);
                        assert(w * y == y * w) by (nonlinear_arith);
                    }
                    x += 1;
                }
                y += 1;
            }
        }
    }

    /// Composite region `from` of raster `src` onto region `to` of this
    /// raster with operator `O` (see `window_spec` for the placement).
    /// Pixels outside the placement are left as they are.
    pub fn composite_raster<R0, R1, O: PorterDuff>(&mut self, to: R0, src: &Raster<P>, from: R1, op: O)
        where
            Region: From<R0>,
            Region: From<R1>,
        requires
            old(self).wf(),
            src.wf(),
        ensures
            final(self).wf(),
            final(self).w() == old(self).w(),
            final(self).h() == old(self).h(),
            final(self).cells().len() == old(self).cells().len(),
            <Region as FromSpec<R0>>::obeys_from_spec() && <Region as FromSpec<R1>>::obeys_from_spec()
                ==> forall|i: int| {
                    let p = window_spec(
                        <Region as FromSpec<R0>>::from_spec(to),
                        <Region as FromSpec<R1>>::from_spec(from),
                        old(self).w(),
                        old(self).h(),
                        src.w(),
                        src.h(),
                    );
                    0 <= i < old(self).cells().len() && in_window(p, i % old(self).w(), i / old(self).w())
                        ==> blended::<P, O>(
                        #[trigger] final(self).cells()[i],
                        old(self).cells()[i],
                        src.cells()[(p.3 + i / old(self).w() - p.1) * src.w() + (p.2 + i % old(self).w() - p.0)],
                    )
                },
            <Region as FromSpec<R0>>::obeys_from_spec() && <Region as FromSpec<R1>>::obeys_from_spec()
                ==> forall|i: int| {
                    let p = window_spec(
                        <Region as FromSpec<R0>>::from_spec(to),
                        <Region as FromSpec<R1>>::from_spec(from),
                        old(self).w(),
                        old(self).h(),
                        src.w(),
                        src.h(),
                    );
                    0 <= i < old(self).cells().len() && !in_window(p, i % old(self).w(), i / old(self).w())
                        ==> #[trigger] final(self).cells()[i] == old(self).cells()[i]
                },
    {
        let to = Region::from(to);
        let from = Region::from(from);
        let p = self.placement(src, to, from);
        if p.4 > 0 && p.5 > 0 {
            self.blend_window::<O>(src, p.0 as usize, p.1 as usize, p.2 as usize, p.3 as usize, p.4 as usize, p.5 as usize);
        }
    }

    /// Placement of region `from` of `src` onto region `to` of the raster.
    fn placement(&self, src: &Raster<P>, to: Region, from: Region) -> (p: (i64, i64, i64, i64, i64, i64))
        requires
            self.wf(),
            src.wf(),
        ensures
            (p.0 as int, p.1 as int, p.2 as int, p.3 as int, p.4 as int, p.5 as int)
                == window_spec(to, from, self.w(), self.h(), src.w(), src.h()),
            p.4 > 0 && p.5 > 0 ==> {
                &&& 0 <= p.0 && p.0 + p.4 <= self.w()
                &&& 0 <= p.1 && p.1 + p.5 <= self.h()
                &&& 0 <= p.2 && p.2 + p.4 <= src.w()
                &&& 0 <= p.3 && p.3 + p.5 <= src.h()
            },
    {
        let t = self.clip(to);
        let f = src.clip(from);
        proof {
            use_type_invariant(t);
            use_type_invariant(f);
        }
        let cw: i64 = if t.width <= f.width {
            t.width as i64
        } else {
            f.width as i64
        };
        let ch: i64 = if t.height <= f.height {
            t.height as i64
        } else {
            f.height as i64
        };
        if cw <= 0 || ch <= 0 {
            return (0, 0, 0, 0, 0, 0);
        }
        let dx: i64 = t.x as i64 - if from.x < 0 {
            from.x as i64
        } else {
            0
        };
        let dy: i64 = t.y as i64 - if from.y < 0 {
            from.y as i64
        } else {
            0
        };
        let sx: i64 = f.x as i64 - if to.x < 0 {
            to.x as i64
        } else {
            0
        };
        let sy: i64 = f.y as i64 - if to.y < 0 {
            to.y as i64
        } else {
            0
        };
        let mut ncols: i64 = cw;
        if self.width as i64 - dx < ncols {
            ncols = self.width as i64 - dx;
        }
        if src.width as i64 - sx < ncols {
            ncols = src.width as i64 - sx;
        }
        let mut nrows: i64 = ch;
        if self.height as i64 - dy < nrows {
            nrows = self.height as i64 - dy;
        }
        if src.height as i64 - sy < nrows {
            nrows = src.height as i64 - sy;
        }
        (dx, dy, sx, sy, ncols, nrows)
    }

    /// Blend the `ncols` by `nrows` pixels of `src` at (`sx`, `sy`) onto
    /// those of the raster at (`dx`, `dy`).
    fn blend_window<O: PorterDuff>(
        &mut self,
        src: &Raster<P>,
        dx: usize,
        dy: usize,
        sx: usize,
        sy: usize,
        ncols: usize,
        nrows: usize,
    )
        requires
            old(self).wf(),
            src.wf(),
            0 < ncols,
            0 < nrows,
            dx + ncols <= old(self).w(),
            dy + nrows <= old(self).h(),
            sx + ncols <= src.w(),
            sy + nrows <= src.h(),
        ensures
            final(self).wf(),
            final(self).w() == old(self).w(),
            final(self).h() == old(self).h(),
            final(self).cells().len() == old(self).cells().len(),
            forall|i: int| {
                let p = (dx as int, dy as int, sx as int, sy as int, ncols as int, nrows as int);
                0 <= i < old(self).cells().len() && in_window(p, i % old(self).w(), i / old(self).w())
                    ==> blended::<P, O>(
                    #[trigger] final(self).cells()[i],
                    old(self).cells()[i],
                    src.cells()[(p.3 + i / old(self).w() - p.1) * src.w() + (p.2 + i % old(self).w() - p.0)],
                )
            },
            forall|i: int| {
                let p = (dx as int, dy as int, sx as int, sy as int, ncols as int, nrows as int);
                0 <= i < old(self).cells().len() && !in_window(p, i % old(self).w(), i / old(self).w())
                    ==> #[trigger] final(self).cells()[i] == old(self).cells()[i]
            },
    {
        let ghost p = (dx as int, dy as int, sx as int, sy as int, ncols as int, nrows as int);
        let ghost w = self.width as int;
        let ghost sw = src.width as int;
        let width = self.width as usize;
        let swidth = src.width as usize;
        let x0 = dx;
        let x1 = dx + ncols;
        let y0 = dy;
        let y1 = dy + nrows;
        let fmt = P::format();
        let mut y = y0;
        while y < y1
            invariant
                self.wf(),
                src.wf(),
                self.pixels@.len() == old(self).pixels@.len(),
                self.width == old(self).width,
                self.height == old(self).height,
                w == self.width,
                width == w,
                sw == src.width,
                swidth == sw,
                fmt == P::format_spec(),
                valid_format(fmt),
                x0 == p.0,
                y0 == p.1,
                x1 == p.0 + p.4,
                y1 == p.1 + p.5,
                sx == p.2,
                sy == p.3,
                p.2 + p.4 <= sw,
                p.3 + p.5 <= src.height,
                x0 < x1 <= w,
                y0 <= y <= y1,
                y1 <= self.height,
                forall|i: int| 0 <= i < self.pixels@.len() && !(in_window(p, i % w, i / w) && i / w < y)
                    ==> #[trigger] self.pixels@[i] == old(self).pixels@[i],
                forall|i: int| 0 <= i < self.pixels@.len() && in_window(p, i % w, i / w) && i / w < y
                    ==> blended::<P, O>(
                    #[trigger] self.pixels@[i],
                    old(self).pixels@[i],
                    src.pixels@[(p.3 + i / w - p.1) * sw + (p.2 + i % w - p.0)],
                ),
            decreases y1 - y,
        {
            let mut x = x0;
            while x < x1
                invariant
                    self.wf(),
                    src.wf(),
                    self.pixels@.len() == old(self).pixels@.len(),
                    self.width == old(self).width,
                    self.height == old(self).height,
                    w == self.width,
                    width == w,
                    sw == src.width,
                    swidth == sw,
                    fmt == P::format_spec(),
                    valid_format(fmt),
                    x0 == p.0,
                    y0 == p.1,
                    x1 == p.0 + p.4,
                    y1 == p.1 + p.5,
                    sx == p.2,
                    sy == p.3,
                    p.2 + p.4 <= sw,
                    p.3 + p.5 <= src.height,
                    x0 < x1 <= w,
                    y0 <= y < y1,
                    y1 <= self.height,
                    x0 <= x <= x1,
                    forall|i: int| 0 <= i < self.pixels@.len() && !(in_window(p, i % w, i / w)
                        && (i / w < y || (i / w == y && i % w < x)))
                        ==> #[trigger] self.pixels@[i] == old(self).pixels@[i],
                    forall|i: int| 0 <= i < self.pixels@.len() && in_window(p, i % w, i / w)
                        && (i / w < y || (i / w == y && i % w < x))
                        ==> blended::<P, O>(
                        #[trigger] self.pixels@[i],
                        old(self).pixels@[i],
                        src.pixels@[(p.3 + i / w - p.1) * sw + (p.2 + i % w - p.0)],
                    ),
                decreases x1 - x,
            {
                let sc = x - x0 + sx;
                let sr = y - y0 + sy;
                proof {
                    lemma_cell(w, self.height as int, x as int, y as int);
                    lemma_cell(sw, src.height as int, sc as int, sr as int);
                }
                let i = y * width + x;
                let j = sr * swidth + sc;
                let ghost before = self.pixels@[i as int];
                assert(before == old(self).pixels@[i as int]);
                let d = O::blend(fmt, self.pixels[i].into_native(), src.pixels[j].into_native());
                self.pixels.set(i, P::from_native(d));
                assert(blended::<P, O>(self.pixels@[i as int], old(self).pixels@[i as int], src.pixels@[j as int]));
                assert forall|k: int| 0 <= k < self.pixels@.len() && #[trigger] (k / w) == y && k % w == x implies k == i by {
                    lemma_fundamental_div_mod(k, w);
                    assert(w * y == y * w) by (nonlinear_arith);
                }
                x += 1;
            }
            y += 1;
        }
    }
}

} // verus!
