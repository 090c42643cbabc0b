//! Configuration of pixel buffers.
//!
//! A pixel buffer is created from a list of attributes. This module holds
//! the configuration and computes that list; creating the buffer itself is a
//! call into the platform.

use vstd::prelude::*;
use crate::codecs::pixel::BGRA32;
use super::be_bytes::{wrap_i32, wrap_i32_of_u64};

verus! {

/// Configuration for creating a pixel buffer.
#[derive(Debug, Clone)]
pub struct PixelBufferConfig {
    /// Width in pixels
    pub width: usize,
    /// Height in pixels
    pub height: usize,
    /// Pixel format (FourCC)
    pub pixel_format: u32,
    /// Enable CoreGraphics compatibility
    pub cg_compatible: bool,
    /// Enable CoreGraphics bitmap context compatibility
    pub cg_bitmap_compatible: bool,
}

impl PixelBufferConfig {
    /// Create a new configuration with default values.
    pub fn new(width: usize, height: usize) -> (config: Self)
        ensures
            config == (PixelBufferConfig {
                width,
                height,
                pixel_format: BGRA32,
                cg_compatible: true,
                cg_bitmap_compatible: true,
            }),
    {
        Self { width, height, pixel_format: BGRA32, cg_compatible: true, cg_bitmap_compatible: true }
    }

    /// Set the pixel format.
    pub fn pixel_format(self, format: u32) -> (config: Self)
        ensures
            config == (PixelBufferConfig { pixel_format: format, ..self }),
    {
        let mut config = self;
        config.pixel_format = format;
        config
    }

    /// Enable or disable CoreGraphics compatibility.
    pub fn cg_compatible(self, enabled: bool) -> (config: Self)
        ensures
            config == (PixelBufferConfig { cg_compatible: enabled, ..self }),
    {
        let mut config = self;
        config.cg_compatible = enabled;
        config
    }

    /// Enable or disable CoreGraphics bitmap context compatibility.
    pub fn cg_bitmap_compatible(self, enabled: bool) -> (config: Self)
        ensures
            config == (PixelBufferConfig { cg_bitmap_compatible: enabled, ..self }),
    {
        let mut config = self;
        config.cg_bitmap_compatible = enabled;
        config
    }
}

/// One entry of the attributes that a pixel buffer is created with.
#[derive(Debug, Clone, Copy, PartialEq, Eq, Structural)]
pub enum PixelBufferAttribute {
    /// The pixel format, as a signed number.
    PixelFormatType(i32),
    /// The width in pixels, as a signed number.
    Width(i32),
    /// The height in pixels, as a signed number.
    Height(i32),
    /// The buffer can back a CoreGraphics image.
    CGImageCompatibility,
    /// The buffer can back a CoreGraphics bitmap context.
    CGBitmapContextCompatibility,
}

/// The attributes for a configuration: pixel format, width and height, each
/// kept to 32 bits, then one entry for each kind of compatibility that is
/// enabled.
pub open spec fn attributes_of(config: PixelBufferConfig) -> Seq<PixelBufferAttribute> {
    let sizes = seq![
        PixelBufferAttribute::PixelFormatType(wrap_i32(config.pixel_format as int) as i32),
        PixelBufferAttribute::Width(wrap_i32(config.width as int) as i32),
        PixelBufferAttribute::Height(wrap_i32(config.height as int) as i32),
    ];
    let image = if config.cg_compatible {
        seq![PixelBufferAttribute::CGImageCompatibility]
    } else {
        Seq::empty()
    };
    let bitmap = if config.cg_bitmap_compatible {
        seq![PixelBufferAttribute::CGBitmapContextCompatibility]
    } else {
        Seq::empty()
    };
    sizes + image + bitmap
}

/// The attributes that a pixel buffer for this configuration is created
/// with.
pub fn pixel_buffer_attributes(config: &PixelBufferConfig) -> (attributes: Vec<
    PixelBufferAttribute,
>)
    ensures
        attributes@ == attributes_of(*config),
{
    let mut attributes = Vec::new();
    attributes.push(PixelBufferAttribute::PixelFormatType(wrap_i32_of_u64(config.pixel_format as u64)));
    attributes.push(PixelBufferAttribute::Width(wrap_i32_of_u64(config.width as u64)));
    attributes.push(PixelBufferAttribute::Height(wrap_i32_of_u64(config.height as u64)));

    if config.cg_compatible {
        attributes.push(PixelBufferAttribute::CGImageCompatibility);
    }
    if config.cg_bitmap_compatible {
        attributes.push(PixelBufferAttribute::CGBitmapContextCompatibility);
    }
    assert(attributes@ =~= attributes_of(*config));
    attributes
}

} // verus!
