//! How the pixels of a frame are laid out.

use vstd::prelude::*;

verus! {

/// The layout of one pixel in a frame buffer.
#[derive(Debug, Clone, Copy, PartialEq, Eq, Structural)]
pub enum PixelFormat {
    /// Four bytes per pixel: red, green, blue, alpha, eight bits each.
    RGBA,
}

impl PixelFormat {
    /// The number of bytes that one pixel takes in this format.
    pub open spec fn bytes_per_pixel_spec(self) -> nat {
        match self {
            PixelFormat::RGBA => 4,
        }
    }

    /// The number of bytes that one pixel takes in this format.
    pub fn bytes_per_pixel(self) -> (bytes: u32)
        ensures
            bytes == self.bytes_per_pixel_spec(),
    {
        match self {
            PixelFormat::RGBA => 4,
        }
    }
}

impl Default for PixelFormat {
    fn default() -> (format: PixelFormat)
        ensures
            format == PixelFormat::RGBA,
    {
        PixelFormat::RGBA
    }
}

} // verus!
