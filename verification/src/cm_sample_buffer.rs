//! What an encoded sample buffer holds, as plain values.
//!
//! The encoder hands out opaque sample buffers. The types here are a
//! snapshot of everything the NAL extractor reads from one: the encoded
//! bytes, the format description with its parameter sets and dimensions, the
//! three timestamps and the sync attachment.

use vstd::prelude::*;

pub mod nal_unit_type;

verus! {

/// Video dimensions structure.
#[derive(Debug, Clone, Copy)]
pub struct CMVideoDimensions {
    pub width: i32,
    pub height: i32,
}

impl Default for CMVideoDimensions {
    fn default() -> (dims: Self)
        ensures
            dims.width == 0,
            dims.height == 0,
    {
        CMVideoDimensions { width: 0, height: 0 }
    }
}

/// Flag bit of a `MediaTime` that marks the time as valid.
pub const TIME_FLAG_VALID: u32 = 1;

/// A rational time: `value / timescale` seconds.
#[derive(Debug, Clone, Copy)]
pub struct MediaTime {
    pub value: i64,
    pub timescale: i32,
    pub flags: u32,
    pub epoch: i64,
}

/// What the format description answers when asked for the parameter set at
/// one index: a status, and the parameter set when the status is 0.
#[derive(Debug, Clone)]
pub struct ParameterSetLookup {
    /// 0 on success, else the status of the failed lookup.
    pub status: i32,
    /// The parameter set, without start code or length prefix.
    pub data: Vec<u8>,
}

/// The codec configuration of a stream of sample buffers.
#[derive(Debug, Clone)]
pub struct FormatDescription {
    /// The lookup at index 0, the sequence parameter set.
    pub sps: ParameterSetLookup,
    /// The lookup at index 1, the picture parameter set.
    pub pps: ParameterSetLookup,
    /// Width of the NAL unit length field in bytes, as reported next to the
    /// parameter set at index 0.
    pub nal_unit_header_length: i32,
    /// Coded picture size.
    pub dimensions: CMVideoDimensions,
}

/// The encoded bytes of a sample buffer.
#[derive(Debug, Clone)]
pub struct BlockBuffer {
    /// The bytes of the buffer.
    pub data: Vec<u8>,
    /// Status of the request for a pointer to the bytes; 0 on success.
    pub pointer_status: i32,
}

/// The "not sync" entry among the attachments of a sample.
#[derive(Debug, Clone, Copy)]
pub enum NotSyncAttachment {
    /// The sample carries no attachments at all.
    NoAttachments,
    /// The sample has attachments, and the entry is not among them.
    Absent,
    /// The entry is there; `is_false` tells whether its value is the boolean
    /// false.
    Present { is_false: bool },
}

/// One encoded sample as the encoder hands it out.
#[derive(Debug, Clone)]
pub struct SampleBuffer {
    /// The encoded data, if the sample has any.
    pub data_buffer: Option<BlockBuffer>,
    /// The format description, if the sample has one.
    pub format_description: Option<FormatDescription>,
    /// Presentation timestamp of the first sample.
    pub presentation_time: MediaTime,
    /// Decode timestamp of the first sample; not valid when the encoder
    /// reports none.
    pub decode_time: MediaTime,
    /// Duration of the sample.
    pub duration: MediaTime,
    /// The sync attachment of the first sample.
    pub not_sync: NotSyncAttachment,
}

} // verus!
