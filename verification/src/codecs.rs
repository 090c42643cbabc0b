//! FourCC codec constants for video, audio, and pixel formats.
//!
//! These constants are commonly used when working with VideoToolbox,
//! CoreMedia, and CoreVideo frameworks.

pub mod audio;
pub mod pixel;
pub mod video;
