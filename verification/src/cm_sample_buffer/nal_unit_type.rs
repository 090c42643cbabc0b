//! H.264 NAL unit types: the low five bits of a NAL unit's first byte.

use vstd::prelude::*;

verus! {

/// Non-IDR slice (P/B frame)
pub const NON_IDR_SLICE: u8 = 1;

/// Coded slice data partition A
pub const SLICE_DATA_A: u8 = 2;

/// Coded slice data partition B
pub const SLICE_DATA_B: u8 = 3;

/// Coded slice data partition C
pub const SLICE_DATA_C: u8 = 4;

/// IDR slice (keyframe)
pub const IDR_SLICE: u8 = 5;

/// Supplemental enhancement information
pub const SEI: u8 = 6;

/// Sequence parameter set
pub const SPS: u8 = 7;

/// Picture parameter set
pub const PPS: u8 = 8;

/// Access unit delimiter
pub const AUD: u8 = 9;

/// End of sequence
pub const END_OF_SEQ: u8 = 10;

/// End of stream
pub const END_OF_STREAM: u8 = 11;

/// Filler data
pub const FILLER: u8 = 12;

} // verus!
