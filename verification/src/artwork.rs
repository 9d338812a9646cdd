//! The now-playing artwork sink: decoded RGBA images kept ready for the
//! canvas, which uploads them lazily on the first frame that draws them.

use vstd::prelude::*;

verus! {

/// A decoded image: its size and its RGBA pixels, row by row.
pub struct RgbaImage {
    pub width: u32,
    pub height: u32,
    pub pixels: Vec<u8>,
}

/// Keeps decoded images as RGBA buffers for the canvas.
pub struct Win32ImageSink;

impl Win32ImageSink {
    /// Keeps a copy of the decoded `image` (the cache `key` plays no part):
    /// the same size and the same pixels.
    pub fn upload(&mut self, key: u64, image: &RgbaImage) -> (h: Option<RgbaImage>)
        ensures
            h is Some,
            h->0.width == image.width,
            h->0.height == image.height,
            h->0.pixels@ == image.pixels@,
    {
        Some(RgbaImage { width: image.width, height: image.height, pixels: image.pixels.clone() })
    }
}

/// A copy of `image` for the GDI canvas: the same size and pixels.
pub fn to_win32(image: &RgbaImage) -> (c: RgbaImage)
    ensures
        c.width == image.width,
        c.height == image.height,
        c.pixels@ == image.pixels@,
{
    RgbaImage { width: image.width, height: image.height, pixels: image.pixels.clone() }
}

/// Keeps decoded album covers as RGBA buffers for the grid's tiles.
pub struct RgbaSink;

impl RgbaSink {
    /// Keeps a copy of the decoded cover (the cache `key` plays no part).
    pub fn upload(&mut self, key: u64, image: &RgbaImage) -> (h: Option<RgbaImage>)
        ensures
            h is Some,
            h->0.width == image.width,
            h->0.height == image.height,
            h->0.pixels@ == image.pixels@,
    {
        Some(to_win32(image))
    }
}

/// The square edge covers are resized to: the tile's cover size in pixels,
/// at least one.
pub fn cover_edge(cover_px: i32) -> (e: u32)
    ensures
        e == (if cover_px >= 1 { cover_px as int } else { 1 }),
{
    if cover_px >= 1 {
        cover_px as u32
    } else {
        1
    }
}

} // verus!
