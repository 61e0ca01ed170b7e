//! Pixel images, as far as numbers are computed for them.

use vstd::prelude::*;
use crate::handle::Handle;

verus! {

/// How many bytes a pixel of 32 bits takes.
pub const BYTES_PER_PIXEL: i32 = 4;

/// A pixel image that the toolkit holds.
#[derive(Clone, Copy, Debug, PartialEq, Eq, Structural)]
pub struct Image {
    pub handle: Handle,
}

/// What the toolkit is handed to load pixels into a part of an image.
#[derive(Clone, Copy, Debug, PartialEq, Eq, Structural)]
pub struct PixmapLoad {
    /// The image.
    pub image: usize,
    /// The left edge of the part.
    pub x: i32,
    /// The top edge of the part.
    pub y: i32,
    /// The width of the part, in pixels.
    pub width: i32,
    /// The height of the part, in pixels.
    pub height: i32,
    /// How many bytes lie between the start of one row and the next.
    pub row_stride: i32,
}

impl Image {
    /// Wraps the address of an image that the toolkit made.
    pub fn from_raw(raw: usize) -> (image: Image)
        ensures
            image.handle.raw == raw,
    {
        Image { handle: Handle::from_raw(raw) }
    }

    /// The image's address, to hand back to the toolkit.
    pub fn as_ui_draw_image(&self) -> (raw: usize)
        ensures
            raw == self.handle.raw,
    {
        self.handle.as_raw()
    }

    /// What the toolkit is handed to load rows of `w` pixels, packed without
    /// gaps, into the part of the image that starts at the given offsets. A
    /// width whose row does not fit the toolkit's integer cannot be loaded,
    /// so the contract leaves it out.
    pub fn load_pixmap(&self, offset_x: i32, offset_y: i32, w: i32, h: i32) -> (load: PixmapLoad)
        requires
            i32::MIN <= w * BYTES_PER_PIXEL <= i32::MAX,
        ensures
            load.image == self.handle.raw,
            load.x == offset_x,
            load.y == offset_y,
            load.width == w,
            load.height == h,
            load.row_stride == w * BYTES_PER_PIXEL,
    {
        PixmapLoad {
            image: self.handle.as_raw(),
            x: offset_x,
            y: offset_y,
            width: w,
            height: h,
            row_stride: w * BYTES_PER_PIXEL,
        }
    }
}

} // verus!
