use pix::alpha::{premultiply, unpremultiply};
use pix::chan::{convert_channel, Ch16, Ch8};
use pix::gamma::{decode_srgb, encode_srgb};
use pix::{
    Graya8, Graya8p, Rgb16, Rgb8, Rgba16, Rgba16p, Rgba8, Rgba8p, SGray16, SGray8, SRgb16, SRgb8,
    SRgba16, SRgba8, SRgba8p,
};

#[test]
fn gray_to_rgb() {
    assert_eq!(SRgb8::new(0xD9, 0xD9, 0xD9, ()), SGray8::new(0xD9, ()).convert());
    assert_eq!(SRgb8::new(0x33, 0x33, 0x33, ()), SGray16::new(0x337F, ()).convert());
    assert_eq!(SRgb16::new(0x2929, 0x2929, 0x2929, ()), SGray8::new(0x29, ()).convert());
    assert_eq!(SRgb16::new(0x5593, 0x5593, 0x5593, ()), SGray16::new(0x5593, ()).convert());
}

#[test]
fn linear_to_srgb() {
    assert_eq!(SRgb8::new(0xEF, 0x8C, 0xC7, ()), Rgb8::new(0xDC, 0x43, 0x91, ()).convert());
    assert_eq!(SRgb8::new(0x66, 0xF4, 0xB5, ()), Rgb16::new(0x2205, 0xE699, 0x7654, ()).convert());
}

#[test]
fn srgb_to_linear() {
    assert_eq!(Rgb8::new(0xDC, 0x43, 0x92, ()), SRgb8::new(0xEF, 0x8C, 0xC7, ()).convert());
    assert_eq!(Rgb8::new(0x22, 0xE7, 0x76, ()), SRgb16::new(0x6673, 0xF453, 0xB593, ()).convert());
}

#[test]
fn straight_to_premultiplied() {
    assert_eq!(Rgba8p::new(0x10, 0x20, 0x40, 0x80), Rgba8::new(0x20, 0x40, 0x80, 0x80).convert());
    assert_eq!(Rgba8p::new(0x04, 0x10, 0x20, 0x40), Rgba16::new(0x1000, 0x4000, 0x8000, 0x4000).convert());
}

#[test]
fn premultiplied_to_straight() {
    assert_eq!(Rgba8::new(0x40, 0x80, 0xFF, 0x80), Rgba8p::new(0x20, 0x40, 0x80, 0x80).convert());
    assert_eq!(Rgba8::new(0x40, 0xFF, 0x80, 0x40), Rgba16p::new(0x1000, 0x4000, 0x2000, 0x4000).convert());
}

#[test]
fn straight_to_premultiplied_srgb() {
    assert_eq!(SRgba8p::new(0x16, 0x2A, 0x5C, 0x80), SRgba8::new(0x20, 0x40, 0x80, 0x80).convert());
    assert_eq!(SRgba8p::new(0x0D, 0x1C, 0x40, 0x40), SRgba16::new(0x2000, 0x4000, 0x8000, 0x4000).convert());
}

#[test]
fn channel_width_round_trip() {
    for v in 0..=255u8 {
        let wide: Ch16 = convert_channel(Ch8::new(v));
        assert_eq!(wide, Ch16::new(v as u16 * 257));
        let back: Ch8 = convert_channel(wide);
        assert_eq!(back, Ch8::new(v));
    }
    let narrow: Ch8 = convert_channel(Ch16::new(0x12FF));
    assert_eq!(narrow, Ch8::new(0x12));
    let again: Ch16 = convert_channel(narrow);
    assert_eq!(again, Ch16::new(0x1212));
}

#[test]
fn transparent_premultiplied_decodes_to_zero() {
    assert_eq!(unpremultiply(200, 0, 255), 0);
    assert_eq!(unpremultiply(60000, 0, 65535), 0);
    assert_eq!(Rgba8::new(0, 0, 0, 0), Rgba8p::new(0x40, 0x80, 0xC0, 0).convert());
    assert_eq!(Graya8::new(0, 0), Graya8p::new(0x40, 0).convert());
}

#[test]
fn premultiplied_round_trip() {
    assert_eq!(premultiply(200, 128, 255), 100);
    assert_eq!(unpremultiply(100, 128, 255), 199);
    for c in 0..=255u32 {
        assert_eq!(unpremultiply(premultiply(c, 255, 255), 255, 255), c);
    }
    assert_eq!(unpremultiply(premultiply(200, 1, 255), 1, 255), 0);
}

#[test]
fn srgb_round_trip() {
    assert_eq!(decode_srgb(200, 255), 147);
    assert_eq!(encode_srgb(147, 255), 200);
    assert_eq!(decode_srgb(3, 255), 0);
    for x in 49..=255u32 {
        let y = encode_srgb(decode_srgb(x, 255), 255);
        assert!(y + 1 >= x && y <= x + 1);
    }
    assert_eq!(encode_srgb(0, 65535), 0);
    assert_eq!(encode_srgb(65535, 65535), 65535);
    assert_eq!(decode_srgb(65535, 65535), 65535);
}

#[test]
fn convert_to_own_format() {
    let p = SRgba8p::new(0x16, 0x2A, 0x5C, 0x80);
    assert_eq!(p, p.convert::<SRgba8p>());
    let g = SGray16::new(0x1234, ());
    assert_eq!(g, g.convert::<SGray16>());
}
