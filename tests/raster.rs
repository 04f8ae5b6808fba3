use pix::ops::{Source, SourceOver};
use pix::{
    Gray8, Graya8p, Hwb8, Mask16, Mask8, Raster, Region, SGray16, SGray8, SGraya16, SGraya8, SRgb16,
    SRgb8, SRgba16, SRgba8, SRgba8p,
};

#[test]
fn region_size() {
    assert_eq!(std::mem::size_of::<Region>(), 16);
}

#[test]
fn intersect() {
    let r = Region::new(0, 0, 5, 5);
    assert_eq!(r, Region::new(0, 0, 5, 5));
    assert_eq!(r, r.intersection(Region::new(0, 0, 10, 10)));
    assert_eq!(r, r.intersection(Region::new(-5, -5, 10, 10)));
    assert_eq!(Region::new(0, 0, 4, 4), r.intersection(Region::new(-1, -1, 5, 5)));
    assert_eq!(Region::new(1, 2, 1, 3), r.intersection(Region::new(1, 2, 1, 100)));
    assert_eq!(Region::new(2, 1, 3, 1), r.intersection(Region::new(2, 1, 100, 1)));
}

#[test]
fn intersect_laws() {
    let plane = Region::from(());
    let r = Region::new(3, 4, 10, 20);
    assert_eq!(r, r.intersection(plane));
    let a = Region::new(-3, 2, 10, 4);
    let b = Region::new(1, -6, 5, 30);
    assert_eq!(a.intersection(b), b.intersection(a));
    assert_eq!(a.intersection(b), Region::new(1, 2, 5, 4));
    let c = Region::new(20, 2, 5, 5);
    assert_eq!(a.intersection(c), Region::new(20, 2, 0, 4));
    assert_eq!(Region::new(0, 0, 3_000_000_000, 1), Region::new(0, 0, 0, 1));
}

#[test]
fn with_buffer_rgb8() {
    let b = vec![
        0xAA, 0x00, 0x00, 0x00, 0x11, 0x22, 0x33, 0x44, 0x55,
        0x00, 0xBB, 0x00, 0x66, 0x77, 0x88, 0x99, 0xAA, 0xBB,
        0x00, 0x00, 0xCC, 0xCC, 0xDD, 0xEE, 0xFF, 0x00, 0x11,
    ];
    let r = Raster::<SRgb8>::with_u8_buffer(3, 3, b);
    let v = vec![
        SRgb8::new(0xAA, 0x00, 0x00, ()), SRgb8::new(0x00, 0x11, 0x22, ()),
        SRgb8::new(0x33, 0x44, 0x55, ()),
        SRgb8::new(0x00, 0xBB, 0x00, ()), SRgb8::new(0x66, 0x77, 0x88, ()),
        SRgb8::new(0x99, 0xAA, 0xBB, ()),
        SRgb8::new(0x00, 0x00, 0xCC, ()), SRgb8::new(0xCC, 0xDD, 0xEE, ()),
        SRgb8::new(0xFF, 0x00, 0x11, ()),
    ];
    assert_eq!(r.pixels(), &v[..]);
}

#[test]
fn with_buffer_graya16() {
    let b = vec![
        0x1001, 0x5005, 0x1000, 0x3002, 0x5004, 0x7006,
        0x2002, 0x6006, 0x9008, 0xB00A, 0xD00C, 0xF00E,
        0x3003, 0x7007, 0xE00F, 0xC00D, 0xA00B, 0x8009,
    ];
    let r = Raster::<SGraya16>::with_u16_buffer(3, 3, b);
    let v = vec![
        SGraya16::new(0x1001, 0x5005), SGraya16::new(0x1000, 0x3002),
        SGraya16::new(0x5004, 0x7006),
        SGraya16::new(0x2002, 0x6006), SGraya16::new(0x9008, 0xB00A),
        SGraya16::new(0xD00C, 0xF00E),
        SGraya16::new(0x3003, 0x7007), SGraya16::new(0xE00F, 0xC00D),
        SGraya16::new(0xA00B, 0x8009),
    ];
    assert_eq!(r.pixels(), &v[..]);
}

#[test]
fn with_buffer_matte8() {
    let r = Raster::<Mask8>::with_u8_buffer(2, 1, vec![0x12, 0x34]);
    assert_eq!(r.pixels(), &[Mask8::new(0x12), Mask8::new(0x34)][..]);
}

#[test]
fn byte_view_round_trip() {
    let b = vec![0x10, 0x20, 0x30, 0x40, 0x50, 0x60, 0x70, 0x80];
    let r = Raster::<SRgba8>::with_u8_buffer(2, 1, b.clone());
    assert_eq!(r.pixels(), &[SRgba8::new(0x10, 0x20, 0x30, 0x40), SRgba8::new(0x50, 0x60, 0x70, 0x80)][..]);
    assert_eq!(r.as_u8_slice(), b);
    let g = Raster::<SGray8>::with_color(2, 2, SGray8::new(0x7F, ()));
    assert_eq!(g.as_u8_slice(), vec![0x7F; 4]);
}

#[test]
fn with_pixels_mask16() {
    let p = vec![
        Mask16::new(0x4000), Mask16::new(0x8000), Mask16::new(0xC000),
        Mask16::new(0x8000), Mask16::new(0x9999), Mask16::new(0xB333),
        Mask16::new(0xD999), Mask16::new(0xA666), Mask16::new(0x7333),
    ];
    let r = Raster::with_pixels(3, 3, p.clone());
    assert_eq!(r.pixels(), &p[..]);
    assert_eq!(r.width(), 3);
    assert_eq!(r.height(), 3);
    assert_eq!(r.pixel(1, 2), Mask16::new(0xA666));
}

#[test]
fn pixel_mut_mask8() {
    let mut r = Raster::<Mask8>::with_clear(3, 3);
    *r.pixel_mut(0, 0) = Mask8::new(0xFF);
    *r.pixel_mut(2, 0) = Mask8::new(0x12);
    *r.pixel_mut(1, 1) = Mask8::new(0x34);
    *r.pixel_mut(0, 2) = Mask8::new(0x56);
    *r.pixel_mut(2, 2) = Mask8::new(0x78);
    let v = vec![
        Mask8::new(0xFF), Mask8::new(0x00), Mask8::new(0x12),
        Mask8::new(0x00), Mask8::new(0x34), Mask8::new(0x00),
        Mask8::new(0x56), Mask8::new(0x00), Mask8::new(0x78),
    ];
    assert_eq!(r.pixels(), &v[..]);
}

#[test]
fn pixel_mut_mask16() {
    let mut r = Raster::<Mask16>::with_clear(3, 3);
    *r.pixel_mut(2, 0) = Mask16::new(0x9ABC);
    *r.pixel_mut(1, 1) = Mask16::new(0x5678);
    *r.pixel_mut(0, 2) = Mask16::new(0x1234);
    *r.pixel_mut(0, 0) = Mask16::new(0xFFFF);
    *r.pixel_mut(2, 2) = Mask16::new(0x8080);
    let v = vec![
        Mask16::new(0xFFFF), Mask16::new(0x0000), Mask16::new(0x9ABC),
        Mask16::new(0x0000), Mask16::new(0x5678), Mask16::new(0x0000),
        Mask16::new(0x1234), Mask16::new(0x0000), Mask16::new(0x8080),
    ];
    assert_eq!(r.pixels(), &v[..]);
}

#[test]
fn raster_with_color() {
    let r = Raster::<Hwb8>::with_color(3, 3, Hwb8::new(0x80, 0, 0, ()));
    let v = vec![Hwb8::new(0x80, 0, 0, ()); 9];
    assert_eq!(r.pixels(), &v[..]);
}

#[test]
fn composite_color_gray8() {
    let mut r = Raster::<SGray8>::with_clear(3, 3);
    r.composite_color((0, 0, 1, 1), SGray8::new(0x23, ()), Source);
    r.composite_color((10, 10, 1, 1), SGray8::new(0x45, ()), Source);
    r.composite_color((1, 1, 10, 10), SGray8::new(0xBB, ()), Source);
    let v = vec![
        SGray8::new(0x23, ()), SGray8::new(0, ()), SGray8::new(0, ()),
        SGray8::new(0, ()), SGray8::new(0xBB, ()), SGray8::new(0xBB, ()),
        SGray8::new(0, ()), SGray8::new(0xBB, ()), SGray8::new(0xBB, ()),
    ];
    assert_eq!(r.pixels(), &v[..]);
}

#[test]
fn composite_color_gray8_over() {
    let clr = Graya8p::new(0x20, 0x40);
    let mut r = Raster::<Graya8p>::with_color(2, 2, clr);
    r.composite_color((0, 0, 3, 1), Graya8p::new(0x60, 0xA0), SourceOver);
    r.composite_color((1, 1, 4, 4), Graya8p::new(0x80, 0x80), SourceOver);
    let v = vec![
        Graya8p::new(0x6B, 0xB7), Graya8p::new(0x6B, 0xB7),
        Graya8p::new(0x20, 0x40), Graya8p::new(0x8F, 0x9F),
    ];
    assert_eq!(r.pixels(), &v[..]);
}

#[test]
fn composite_color_srgb8() {
    let mut r = Raster::<SRgb8>::with_clear(3, 3);
    r.composite_color((2, -1, 3, 4), SRgb8::new(0xCC, 0xAA, 0xBB, ()), Source);
    let v = vec![
        SRgb8::new(0, 0, 0, ()), SRgb8::new(0, 0, 0, ()),
        SRgb8::new(0xCC, 0xAA, 0xBB, ()),
        SRgb8::new(0, 0, 0, ()), SRgb8::new(0, 0, 0, ()),
        SRgb8::new(0xCC, 0xAA, 0xBB, ()),
        SRgb8::new(0, 0, 0, ()), SRgb8::new(0, 0, 0, ()),
        SRgb8::new(0xCC, 0xAA, 0xBB, ()),
    ];
    assert_eq!(r.pixels(), &v[..]);
}

#[test]
fn composite_color_over_straight_srgb() {
    let mut r = Raster::<SRgba8>::with_color(1, 1, SRgba8::new(0, 0, 0, 0xFF));
    r.composite_color((), SRgba8::new(0xFF, 0xFF, 0xFF, 0xFF), SourceOver);
    assert_eq!(r.pixels(), &[SRgba8::new(0xFF, 0xFF, 0xFF, 0xFF)][..]);
    let mut t = Raster::<SRgba8p>::with_clear(2, 1);
    t.composite_color((1, 0, 1, 1), SRgba8p::new(0x16, 0x2A, 0x5C, 0x80), SourceOver);
    assert_eq!(t.pixels(), &[SRgba8p::new(0, 0, 0, 0), SRgba8p::new(0x16, 0x2A, 0x5C, 0x80)][..]);
}

#[test]
fn composite_raster_gray() {
    let mut g0 = Raster::<Gray8>::with_clear(3, 3);
    let g1 = Raster::<Gray8>::with_color(3, 3, Gray8::new(0x40, ()));
    let g2 = Raster::<Gray8>::with_color(3, 3, Gray8::new(0x60, ()));
    let g3 = Raster::<Gray8>::with_color(3, 3, Gray8::new(0x80, ()));
    g0.composite_raster((-1, 2, 3, 3), &g1, (), Source);
    g0.composite_raster((2, -1, 3, 3), &g2, (), Source);
    g0.composite_raster((-2, -2, 3, 3), &g3, (), Source);
    let v = vec![
        Gray8::new(0x80, ()), Gray8::new(0x00, ()), Gray8::new(0x60, ()),
        Gray8::new(0x00, ()), Gray8::new(0x00, ()), Gray8::new(0x60, ()),
        Gray8::new(0x40, ()), Gray8::new(0x40, ()), Gray8::new(0x00, ()),
    ];
    assert_eq!(g0.pixels(), &v[..]);
}

#[test]
fn composite_raster_rgb() {
    let mut rgb = Raster::<SRgb8>::with_clear(3, 3);
    let gray = Raster::<SGray16>::with_color(3, 3, SGray16::new(0x8000, ()));
    let r = Raster::with_raster(&gray);
    rgb.composite_raster((), &r, (0, 1, 3, 3), Source);
    let mut v = vec![SRgb8::new(0x80, 0x80, 0x80, ()); 6];
    v.extend_from_slice(&vec![SRgb8::new(0, 0, 0, ()); 3]);
    assert_eq!(rgb.pixels(), &v[..]);
}

#[test]
fn composite_raster_source_offsets() {
    let mut dst = Raster::<Gray8>::with_clear(4, 1);
    let src = Raster::with_pixels(
        3,
        1,
        vec![Gray8::new(1, ()), Gray8::new(2, ()), Gray8::new(3, ())],
    );
    dst.composite_raster((1, 0, 10, 1), &src, (-1, 0, 3, 1), Source);
    let v = vec![Gray8::new(0, ()), Gray8::new(0, ()), Gray8::new(1, ()), Gray8::new(2, ())];
    assert_eq!(dst.pixels(), &v[..]);
    let mut far = Raster::<Gray8>::with_clear(10, 1);
    far.composite_raster((8, 0, 2, 1), &src, (-1, 0, 5, 1), Source);
    let mut w = vec![Gray8::new(0, ()); 9];
    w.push(Gray8::new(1, ()));
    assert_eq!(far.pixels(), &w[..]);
}

#[test]
fn with_raster_rgb() {
    let r = Raster::<SRgb8>::with_clear(50, 50);
    let _ = Raster::<SRgb16>::with_raster(&r);
    let _ = Raster::<SRgba8>::with_raster(&r);
    let _ = Raster::<SRgba16>::with_raster(&r);
    let _ = Raster::<SGray8>::with_raster(&r);
    let _ = Raster::<SGray16>::with_raster(&r);
    let _ = Raster::<SGraya8>::with_raster(&r);
    let _ = Raster::<SGraya16>::with_raster(&r);
    let _ = Raster::<Mask8>::with_raster(&r);
    let _ = Raster::<Mask16>::with_raster(&r);
}

#[test]
fn with_raster_mask8() {
    let r = Raster::<Mask8>::with_clear(50, 50);
    let _ = Raster::<SRgb8>::with_raster(&r);
    let _ = Raster::<SRgb16>::with_raster(&r);
    let _ = Raster::<SRgba8>::with_raster(&r);
    let _ = Raster::<SRgba16>::with_raster(&r);
    let _ = Raster::<SGray8>::with_raster(&r);
    let _ = Raster::<SGray16>::with_raster(&r);
    let _ = Raster::<SGraya8>::with_raster(&r);
    let _ = Raster::<SGraya16>::with_raster(&r);
    let _ = Raster::<Mask8>::with_raster(&r);
    let _ = Raster::<Mask16>::with_raster(&r);
}

#[test]
fn with_raster_converts_each_pixel() {
    let r = Raster::<Mask8>::with_color(2, 2, Mask8::new(0x80));
    let s = Raster::<SRgba16>::with_raster(&r);
    let v = vec![SRgba16::new(0xFFFF, 0xFFFF, 0xFFFF, 0x8080); 4];
    assert_eq!(s.pixels(), &v[..]);
}

#[test]
fn rows_and_clear() {
    let mut r = Raster::<Gray8>::with_pixels(
        2,
        2,
        vec![Gray8::new(1, ()), Gray8::new(2, ()), Gray8::new(3, ()), Gray8::new(4, ())],
    );
    {
        let mut rows = r.rows_mut();
        let first = rows.next().unwrap();
        first[1] = Gray8::new(7, ());
        let second = rows.next().unwrap();
        second[0] = Gray8::new(8, ());
        assert!(rows.next().is_none());
    }
    assert_eq!(r.pixel(1, 0), Gray8::new(7, ()));
    assert_eq!(r.pixel(0, 1), Gray8::new(8, ()));
    *r.pixel_mut(1, 0) = Gray8::new(2, ());
    *r.pixel_mut(0, 1) = Gray8::new(3, ());
    let mut rows = r.rows();
    assert_eq!(rows.next(), Some(&[Gray8::new(1, ()), Gray8::new(2, ())][..]));
    assert_eq!(rows.next(), Some(&[Gray8::new(3, ()), Gray8::new(4, ())][..]));
    assert_eq!(rows.next(), None);
    assert_eq!(r.region(), Region::new(0, 0, 2, 2));
    assert_eq!(r.intersection((1, -1, 5, 2)), Region::new(1, 0, 1, 1));
    r.pixels_mut()[3] = Gray8::new(9, ());
    assert_eq!(r.pixel(1, 1), Gray8::new(9, ()));
    r.clear();
    assert_eq!(r.pixels(), &vec![Gray8::new(0, ()); 4][..]);
}
