use pix::{Hwb16, Hwb8, Hwba16, Hwba8, Rgb8};

#[test]
fn check_sizes() {
    assert_eq!(std::mem::size_of::<Hwb8>(), 3);
    assert_eq!(std::mem::size_of::<Hwb16>(), 6);
    assert_eq!(std::mem::size_of::<Hwba8>(), 4);
    assert_eq!(std::mem::size_of::<Hwba16>(), 8);
}

#[test]
fn hwb_to_rgb() {
    assert_eq!(Rgb8::new(127, 127, 127, ()), Hwb8::new(0, 128, 128, ()).convert());
    assert_eq!(Rgb8::new(127, 127, 127, ()), Hwb8::new(0, 255, 255, ()).convert());
    assert_eq!(Rgb8::new(85, 85, 85, ()), Hwb8::new(0, 128, 255, ()).convert());
    assert_eq!(Rgb8::new(255, 0, 0, ()), Hwb8::new(0, 0, 0, ()).convert());
    assert_eq!(Rgb8::new(0, 127, 0, ()), Hwb16::new(21845, 0, 32768, ()).convert());
}

#[test]
fn rgb_to_hwb() {
    assert_eq!(Hwb8::new(0, 0, 0, ()), Rgb8::new(255, 0, 0, ()).convert());
    assert_eq!(Hwb8::new(0, 64, 0, ()), Rgb8::new(255, 64, 64, ()).convert());
    assert_eq!(Hwb16::new(21845, 8224, 0, ()), Rgb8::new(32, 255, 32, ()).convert());
}

#[test]
fn hwb_hue_sectors() {
    assert_eq!(Rgb8::new(0, 255, 0, ()), Hwb8::new(85, 0, 0, ()).convert());
    assert_eq!(Rgb8::new(0, 0, 255, ()), Hwb8::new(170, 0, 0, ()).convert());
    assert_eq!(Rgb8::new(252, 255, 0, ()), Hwb8::new(43, 0, 0, ()).convert());
}

#[test]
fn hwb_whiteness_blackness_rescaled() {
    assert_eq!(Rgb8::new(170, 170, 170, ()), Hwb8::new(10, 200, 100, ()).convert());
}

#[test]
fn hwb_convert_to_own_format() {
    let p = Hwb8::new(10, 200, 100, ());
    assert_eq!(p, p.convert::<Hwb8>());
    let q = Hwba16::new(40000, 30000, 50000, 1234);
    assert_eq!(q, q.convert::<Hwba16>());
}

#[test]
fn hwb_accessors() {
    let p = Hwb8::new(10, 200, 100, ());
    assert_eq!(p.hue().0, 10);
    assert_eq!(p.whiteness().0, 200);
    assert_eq!(p.blackness().0, 100);
}
