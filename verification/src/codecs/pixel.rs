//! Pixel format FourCC constants (CVPixelFormatType)

use vstd::prelude::*;

verus! {

/// 32-bit BGRA ('BGRA')
pub const BGRA32: u32 = 0x42475241;

/// 32-bit ARGB ('ARGB')
pub const ARGB32: u32 = 0x00000020;

/// 32-bit RGBA
pub const RGBA32: u32 = 0x52474241;

/// Bi-Planar Y'CbCr 4:2:0 ('420v')
pub const YUV420_BIPLANAR_VIDEO_RANGE: u32 = 0x34323076;

/// Bi-Planar Y'CbCr 4:2:0 full range ('420f')
pub const YUV420_BIPLANAR_FULL_RANGE: u32 = 0x34323066;

/// Planar Y'CbCr 4:2:2 ('y422')
pub const YUV422: u32 = 0x79343232;

/// 24-bit RGB
pub const RGB24: u32 = 0x00000018;

} // verus!
