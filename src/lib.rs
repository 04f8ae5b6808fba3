//! Pixel formats, color models and raster compositing.
//!
//! Channels are fixed-point integers of eight or sixteen bits.  A pixel
//! format combines a color model with a channel width, an alpha mode and a
//! gamma mode; `convert` moves a pixel between any two formats, through
//! red, green, blue and alpha in linear light where the formats differ.
//! A `Raster` holds pixels of one format, and compositing operators blend
//! a color or another raster onto a region of it.
pub mod alpha;
pub mod chan;
pub mod gamma;
pub mod gray;
pub mod hwb;
pub mod matte;
pub mod ops;
pub mod pixel;
pub mod raster;
pub mod rgb;
pub mod srgb;

pub use alpha::{Opaque, Premultiplied, Straight, Translucent};
pub use chan::{Ch16, Ch8, Channel};
pub use gamma::{Linear, Srgb};
pub use gray::{
    Gray, Gray16, Gray8, Graya16, Graya16p, Graya8, Graya8p, SGray16, SGray8, SGraya16, SGraya16p,
    SGraya8, SGraya8p,
};
pub use hwb::{Hwb, Hwb16, Hwb8, Hwba16, Hwba16p, Hwba8, Hwba8p, SHwb16, SHwb8, SHwba16, SHwba16p, SHwba8, SHwba8p};
pub use matte::{Mask16, Mask8, Matte, Matte16, Matte8};
pub use pixel::{Format, Model, Pixel};
pub use raster::{Raster, Region, Rows, RowsMut};
pub use rgb::{
    Rgb, Rgb16, Rgb8, Rgba16, Rgba16p, Rgba8, Rgba8p, SRgb16, SRgb8, SRgba16, SRgba16p, SRgba8,
    SRgba8p,
};
