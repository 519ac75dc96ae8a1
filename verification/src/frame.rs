//! Pixel-format identifiers and the frame contract of the pipelines.

use vstd::prelude::*;

verus! {

/// A pixel format, by the codec engine's numbering. The engine owns the
/// meaning of each value; the pipelines only compare them.
pub type PixelFormat = i32;

/// The engine's marker for an unknown or unset pixel format.
pub const PIXEL_FORMAT_NONE: i32 = -1;

/// Planar YUV 4:2:0, the most widely compatible encoding format.
pub const PIXEL_FORMAT_YUV420P: i32 = 0;

/// Packed RGB, 8 bits per channel: the working format every decoded frame
/// is delivered in and every frame handed to an encoder must carry.
pub const FRAME_PIXEL_FORMAT: i32 = 2;

/// The semi-planar format that hardware-accelerated decoding downloads
/// frames in.
pub const PIXEL_FORMAT_NV12: i32 = 23;

/// The number of channels of the dense-array frame form: red, green, blue.
pub const FRAME_CHANNELS: usize = 3;

} // verus!
