//! What a core says of itself.

use vstd::prelude::*;
use crate::pixel_format::PixelFormat;

verus! {

/// The record a core describes itself with. It is fetched once, when the core
/// is built, and does not change afterwards.
#[derive(Debug, Clone)]
pub struct Metadata {
    /// The name of the core.
    pub name: String,
    /// The width of a frame in pixels.
    pub width: u32,
    /// The height of a frame in pixels.
    pub height: u32,
    /// The layout of a pixel.
    pub pixel_format: PixelFormat,
    /// The frame rate, as the bit pattern of a single-precision number.
    pub frames_per_seconds_bits: u32,
}

impl Metadata {
    /// The length in bytes of every frame of this core: rows times columns
    /// times the bytes of a pixel, without padding.
    pub open spec fn frame_len(&self) -> nat {
        (self.width * self.height * self.pixel_format.bytes_per_pixel_spec()) as nat
    }

    /// The length in bytes of one row of pixels.
    pub open spec fn row_len(&self) -> nat {
        (self.width * self.pixel_format.bytes_per_pixel_spec()) as nat
    }

    /// The length in bytes of one row of pixels, if 32 bits can hold it.
    pub fn bytes_per_row(&self) -> (bytes: Option<u32>)
        ensures
            match bytes {
                Some(bytes) => bytes == self.row_len(),
                None => self.row_len() > u32::MAX,
            },
    {
        let bytes: u64 = (self.width as u64) * (self.pixel_format.bytes_per_pixel() as u64);
        if bytes <= 0xFFFF_FFFF {
            Some(bytes as u32)
        } else {
            None
        }
    }

    /// The length in bytes of a frame, if the machine can count that far.
    pub fn frame_length(&self) -> (length: Option<usize>)
        ensures
            match length {
                Some(length) => length == self.frame_len(),
                None => self.frame_len() > usize::MAX,
            },
    {
        assert(self.width * self.height <= 0xFFFF_FFFF * 0xFFFF_FFFF) by (nonlinear_arith)
            requires
                0 <= self.width <= 0xFFFF_FFFF,
                0 <= self.height <= 0xFFFF_FFFF,
        ;
        let pixels: u64 = (self.width as u64) * (self.height as u64);
        let bytes_per_pixel: u32 = self.pixel_format.bytes_per_pixel();
        assert(pixels * bytes_per_pixel <= 0xFFFF_FFFF_FFFF_FFFF * 4) by (nonlinear_arith)
            requires
                0 <= pixels <= 0xFFFF_FFFF_FFFF_FFFF,
                0 <= bytes_per_pixel <= 4,
        ;
        let bytes: u128 = (pixels as u128) * (bytes_per_pixel as u128);
        if bytes <= usize::MAX as u128 {
            Some(bytes as usize)
        } else {
            None
        }
    }

    /// Whether a buffer of `length` bytes is a frame of this core.
    pub fn is_frame_len(&self, length: usize) -> (matches: bool)
        ensures
            matches == (length == self.frame_len()),
    {
        assert(self.width * self.height <= 0xFFFF_FFFF * 0xFFFF_FFFF) by (nonlinear_arith)
            requires
                0 <= self.width <= 0xFFFF_FFFF,
                0 <= self.height <= 0xFFFF_FFFF,
        ;
        let pixels: u64 = (self.width as u64) * (self.height as u64);
        let bytes_per_pixel: u32 = self.pixel_format.bytes_per_pixel();
        assert(pixels * bytes_per_pixel <= 0xFFFF_FFFF_FFFF_FFFF * 4) by (nonlinear_arith)
            requires
                0 <= pixels <= 0xFFFF_FFFF_FFFF_FFFF,
                0 <= bytes_per_pixel <= 4,
        ;
        let bytes: u128 = (pixels as u128) * (bytes_per_pixel as u128);
        length as u128 == bytes
    }
}

impl Default for Metadata {
    fn default() -> (metadata: Metadata)
        ensures
            metadata.name@ == Seq::<char>::empty(),
            metadata.width == 0,
            metadata.height == 0,
            metadata.pixel_format == PixelFormat::RGBA,
            metadata.frames_per_seconds_bits == 0,
    {
        Metadata {
            name: String::new(),
            width: 0,
            height: 0,
            pixel_format: PixelFormat::RGBA,
            frames_per_seconds_bits: 0,
        }
    }
}

} // verus!
