//! Video codec FourCC constants (CMVideoCodecType)

use vstd::prelude::*;

verus! {

/// H.264/AVC codec ('avc1')
pub const H264: u32 = 0x61766331;

/// HEVC/H.265 codec ('hvc1')
pub const HEVC: u32 = 0x68766331;

/// MPEG-4 Video codec ('mp4v')
pub const MPEG4: u32 = 0x6d703476;

/// Apple ProRes 422 ('apcn')
pub const PRORES_422: u32 = 0x6170636e;

/// Apple ProRes 4444 ('ap4h')
pub const PRORES_4444: u32 = 0x61703468;

/// JPEG ('jpeg')
pub const JPEG: u32 = 0x6a706567;

} // verus!
