//! Audio codec FourCC constants (AudioFormatID)

use vstd::prelude::*;

verus! {

/// MPEG-4 AAC ('aac ')
pub const AAC: u32 = 0x61616320;

/// Linear PCM
pub const LPCM: u32 = 0x6c70636d;

/// Apple Lossless ('alac')
pub const ALAC: u32 = 0x616c6163;

/// MPEG Layer 3 ('.mp3')
pub const MP3: u32 = 0x2e6d7033;

/// Opus ('opus')
pub const OPUS: u32 = 0x6f707573;

} // verus!
