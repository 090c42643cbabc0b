//! NAL unit extraction from encoded sample buffers.
//!
//! The encoder emits H.264 in AVCC format: every NAL unit is preceded by its
//! length, a big-endian field of 1, 2 or 4 bytes.
//!
//! ```text
//! [4-byte big-endian length][NAL data][4-byte length][NAL data]...
//! ```
//!
//! The type of a NAL unit is the low five bits of its first byte:
//! 1 is a non-IDR slice, 5 an IDR slice (keyframe), 7 a sequence parameter
//! set and 8 a picture parameter set.

use vstd::prelude::*;
use vstd::slice::{slice_subrange, slice_to_vec};
use crate::cm_sample_buffer::{
    nal_unit_type,
    FormatDescription,
    NotSyncAttachment,
    SampleBuffer,
    TIME_FLAG_VALID,
};
use vstd::string::StringExecFns;
use super::be_bytes::{be_value, low32, low32_of_i32};
use super::decimal::{append_decimal, decimal};

verus! {

/// Error codes for NAL extraction operations.
#[derive(Debug, Clone, Copy, PartialEq, Eq, Structural)]
pub enum NalError {
    /// Sample buffer has no data buffer
    NoDataBuffer,
    /// Failed to get data pointer from block buffer
    DataPointerFailed(i32),
    /// Format description is null
    NoFormatDescription,
    /// Failed to get parameter set
    ParameterSetFailed(i32),
    /// Invalid NAL unit length
    InvalidNalLength,
    /// Buffer too small for NAL data
    BufferTooSmall,
}

impl NalError {
    /// The message of the error. A status is given in decimal.
    pub open spec fn message(self) -> Seq<char> {
        match self {
            NalError::NoDataBuffer => "Sample buffer has no data buffer"@,
            NalError::DataPointerFailed(code) => "Failed to get data pointer: OSStatus "@
                + decimal(code as int),
            NalError::NoFormatDescription => "Format description is null"@,
            NalError::ParameterSetFailed(code) => "Failed to get parameter set: OSStatus "@
                + decimal(code as int),
            NalError::InvalidNalLength => "Invalid NAL unit length"@,
            NalError::BufferTooSmall => "Buffer too small for NAL data"@,
        }
    }

    /// The message of the error, as text.
    pub fn to_string(&self) -> (text: String)
        ensures
            text@ == self.message(),
    {
        match self {
            NalError::NoDataBuffer => String::from_str("Sample buffer has no data buffer"),
            NalError::DataPointerFailed(code) => {
                let mut text = String::from_str("Failed to get data pointer: OSStatus ");
                append_decimal(&mut text, *code);
                text
            },
            NalError::NoFormatDescription => String::from_str("Format description is null"),
            NalError::ParameterSetFailed(code) => {
                let mut text = String::from_str("Failed to get parameter set: OSStatus ");
                append_decimal(&mut text, *code);
                text
            },
            NalError::InvalidNalLength => String::from_str("Invalid NAL unit length"),
            NalError::BufferTooSmall => String::from_str("Buffer too small for NAL data"),
        }
    }
}

/// A single H.264 NAL unit.
#[derive(Debug, Clone)]
pub struct NalUnit {
    /// The raw NAL unit data (without length prefix, without start code).
    pub data: Vec<u8>,
    /// NAL unit type (from first byte & 0x1F).
    pub nal_type: u8,
}

/// The content of a NAL unit: its bytes and its type.
pub struct NalUnitView {
    pub data: Seq<u8>,
    pub nal_type: u8,
}

impl NalUnitView {
    /// An IDR (keyframe) slice.
    pub open spec fn is_idr(self) -> bool {
        self.nal_type == nal_unit_type::IDR_SLICE
    }

    /// A sequence parameter set.
    pub open spec fn is_sps(self) -> bool {
        self.nal_type == nal_unit_type::SPS
    }

    /// A picture parameter set.
    pub open spec fn is_pps(self) -> bool {
        self.nal_type == nal_unit_type::PPS
    }

    /// A coded slice, IDR or not.
    pub open spec fn is_slice(self) -> bool {
        self.nal_type == nal_unit_type::IDR_SLICE || self.nal_type == nal_unit_type::NON_IDR_SLICE
    }

    /// The unit behind a four-byte start code.
    pub open spec fn annex_b(self) -> Seq<u8> {
        seq![0x00u8, 0x00u8, 0x00u8, 0x01u8] + self.data
    }
}

impl View for NalUnit {
    type V = NalUnitView;

    open spec fn view(&self) -> NalUnitView {
        NalUnitView { data: self.data@, nal_type: self.nal_type }
    }
}

/// The contents of a list of NAL units.
pub open spec fn unit_views(units: Seq<NalUnit>) -> Seq<NalUnitView> {
    units.map_values(|unit: NalUnit| unit@)
}

impl NalUnit {
    /// Returns true if this NAL unit is an IDR (keyframe) slice.
    pub fn is_idr(&self) -> (r: bool)
        ensures
            r == self@.is_idr(),
    {
        self.nal_type == nal_unit_type::IDR_SLICE
    }

    /// Returns true if this NAL unit is an SPS.
    pub fn is_sps(&self) -> (r: bool)
        ensures
            r == self@.is_sps(),
    {
        self.nal_type == nal_unit_type::SPS
    }

    /// Returns true if this NAL unit is a PPS.
    pub fn is_pps(&self) -> (r: bool)
        ensures
            r == self@.is_pps(),
    {
        self.nal_type == nal_unit_type::PPS
    }

    /// Returns true if this NAL unit is a video slice (IDR or non-IDR).
    pub fn is_slice(&self) -> (r: bool)
        ensures
            r == self@.is_slice(),
    {
        self.nal_type == nal_unit_type::IDR_SLICE || self.nal_type
            == nal_unit_type::NON_IDR_SLICE
    }

    /// Convert NAL unit to Annex B format (with 0x00000001 start code).
    pub fn to_annex_b(&self) -> (result: Vec<u8>)
        ensures
            result@ == self@.annex_b(),
    {
        let mut result = Vec::with_capacity(4usize.saturating_add(self.data.len()));
        result.extend_from_slice(&[0x00, 0x00, 0x00, 0x01]);
        result.extend_from_slice(self.data.as_slice());
        result
    }
}

/// How a NAL unit is classified depends on its type alone: two units of the
/// same type are both IDR slices or both not, and likewise for parameter
/// sets and slices, whatever bytes they hold.
pub proof fn lemma_classification_by_type(a: NalUnitView, b: NalUnitView)
    requires
        a.nal_type == b.nal_type,
    ensures
        a.is_idr() == b.is_idr(),
        a.is_sps() == b.is_sps(),
        a.is_pps() == b.is_pps(),
        a.is_slice() == b.is_slice(),
        a.is_slice() == (a.is_idr() || a.nal_type == nal_unit_type::NON_IDR_SLICE),
{
}

/// Timing information extracted from a sample buffer.
#[derive(Debug, Clone, Copy)]
pub struct SampleTiming {
    /// Presentation timestamp in timescale units.
    pub pts: i64,
    /// Decode timestamp in timescale units (same as PTS if no B-frames).
    pub dts: i64,
    /// Duration in timescale units.
    pub duration: i64,
    /// The timescale (e.g., 90000 for standard video).
    pub timescale: i32,
}

/// H.264 parameter sets (SPS and PPS) extracted from format description.
#[derive(Debug, Clone)]
pub struct H264ParameterSets {
    /// Sequence Parameter Set (defines video dimensions, profile, level, etc.)
    pub sps: Vec<u8>,
    /// Picture Parameter Set (defines encoding parameters)
    pub pps: Vec<u8>,
    /// NAL unit length field size (typically 4 bytes).
    pub nal_length_size: i32,
}

/// Video dimensions.
#[derive(Debug, Clone, Copy)]
pub struct VideoDimensions {
    pub width: u32,
    pub height: u32,
}

/// A list of units in front of what parsing the rest gives.
pub open spec fn prepend_units(
    units: Seq<NalUnitView>,
    rest: Result<Seq<NalUnitView>, NalError>,
) -> Result<Seq<NalUnitView>, NalError> {
    match rest {
        Ok(more) => Ok(units + more),
        Err(error) => Err(error),
    }
}

/// The NAL units of AVCC data whose length fields are `width` bytes wide.
///
/// Parsing stops without error where fewer than `width` bytes are left. A
/// width other than 1, 2 or 4 is `InvalidNalLength`, and so is a unit of
/// length 0, which has no first byte to take its type from. A length that
/// exceeds the bytes left is `BufferTooSmall`. The first error is the result
/// of the whole parse.
pub open spec fn parse_avcc(data: Seq<u8>, width: int) -> Result<Seq<NalUnitView>, NalError>
    decreases data.len(),
{
    if width < 0 || width > data.len() {
        Ok(Seq::empty())
    } else if width != 1 && width != 2 && width != 4 {
        Err(NalError::InvalidNalLength)
    } else {
        let length = be_value(data.subrange(0, width));
        if length > data.len() - width {
            Err(NalError::BufferTooSmall)
        } else if length == 0 {
            Err(NalError::InvalidNalLength)
        } else {
            prepend_units(
                seq![
                    NalUnitView {
                        data: data.subrange(width, width + length),
                        nal_type: data[width] & 0x1F,
                    },
                ],
                parse_avcc(data.subrange(width + length, data.len() as int), width),
            )
        }
    }
}

/// Width of the NAL length fields of a sample: what its format description
/// reports, or 4 without one.
pub open spec fn length_field_width(format_description: Option<FormatDescription>) -> int {
    match format_description {
        Some(description) => description.nal_unit_header_length as int,
        None => 4,
    }
}

/// The NAL units of a sample buffer.
pub open spec fn sample_units(sample_buffer: SampleBuffer) -> Result<Seq<NalUnitView>, NalError> {
    match sample_buffer.data_buffer {
        None => Err(NalError::NoDataBuffer),
        Some(block) => if block.data@.len() == 0 {
            Ok(Seq::empty())
        } else if block.pointer_status != 0 {
            Err(NalError::DataPointerFailed(block.pointer_status))
        } else {
            parse_avcc(block.data@, length_field_width(sample_buffer.format_description))
        },
    }
}

/// Whether a list of units holds an IDR slice.
pub open spec fn has_idr(units: Seq<NalUnitView>) -> bool {
    exists|i: int| 0 <= i < units.len() && (#[trigger] units[i]).is_idr()
}

/// Whether a sample is a sync sample. The sync attachment decides where the
/// sample has attachments: no entry means sync, an entry means sync only if
/// its value is false. Without attachments the sample is sync if its data
/// parses and holds an IDR slice.
pub open spec fn sample_is_keyframe(sample_buffer: SampleBuffer) -> bool {
    match sample_buffer.not_sync {
        NotSyncAttachment::Absent => true,
        NotSyncAttachment::Present { is_false } => is_false,
        NotSyncAttachment::NoAttachments => match sample_units(sample_buffer) {
            Ok(units) => has_idr(units),
            Err(_) => false,
        },
    }
}

/// The outcome of an extraction, by content.
pub open spec fn extracted(result: Result<Vec<NalUnit>, NalError>) -> Result<
    Seq<NalUnitView>,
    NalError,
> {
    match result {
        Ok(units) => Ok(unit_views(units@)),
        Err(error) => Err(error),
    }
}

/// NAL unit extractor for encoded sample buffers.
///
/// This struct provides methods to extract H.264 NAL units from encoded
/// sample buffers. The data can then be used for fMP4 muxing or other
/// streaming purposes.
pub struct NalExtractor {
    _private: (),
}

impl Default for NalExtractor {
    fn default() -> Self {
        Self::new()
    }
}

impl NalExtractor {
    /// Create a new NAL extractor.
    pub fn new() -> Self {
        Self { _private: () }
    }

    /// Extract H.264 parameter sets (SPS and PPS) from a format description.
    ///
    /// This should be called once when the first encoded frame is received,
    /// as the parameter sets are needed for the fMP4 initialization segment.
    /// The lookup at index 0 is tried first; the first lookup that failed
    /// gives the error.
    pub fn extract_parameter_sets(&self, format_desc: Option<&FormatDescription>) -> (result:
        Result<H264ParameterSets, NalError>)
        ensures
            match format_desc {
                None => result == Err::<H264ParameterSets, NalError>(NalError::NoFormatDescription),
                Some(description) => if description.sps.status != 0 {
                    result == Err::<H264ParameterSets, NalError>(
                        NalError::ParameterSetFailed(description.sps.status),
                    )
                } else if description.pps.status != 0 {
                    result == Err::<H264ParameterSets, NalError>(
                        NalError::ParameterSetFailed(description.pps.status),
                    )
                } else {
                    &&& result matches Ok(sets)
                    &&& sets.sps@ == description.sps.data@
                    &&& sets.pps@ == description.pps.data@
                    &&& sets.nal_length_size == description.nal_unit_header_length
                },
            },
    {
        let description = match format_desc {
            Some(description) => description,
            None => {
                return Err(NalError::NoFormatDescription);
            },
        };

        // Get SPS (index 0)
        if description.sps.status != 0 {
            return Err(NalError::ParameterSetFailed(description.sps.status));
        }
        let sps = slice_to_vec(description.sps.data.as_slice());

        // Get PPS (index 1)
        if description.pps.status != 0 {
            return Err(NalError::ParameterSetFailed(description.pps.status));
        }
        let pps = slice_to_vec(description.pps.data.as_slice());

        Ok(H264ParameterSets { sps, pps, nal_length_size: description.nal_unit_header_length })
    }

    /// Extract video dimensions from a format description. A negative
    /// dimension comes out as its two's complement.
    pub fn get_dimensions(&self, format_desc: Option<&FormatDescription>) -> (result: Result<
        VideoDimensions,
        NalError,
    >)
        ensures
            match format_desc {
                None => result == Err::<VideoDimensions, NalError>(NalError::NoFormatDescription),
                Some(description) => {
                    &&& result matches Ok(dimensions)
                    &&& dimensions.width as int == low32(
                        description.dimensions.width as int,
                    )
                    &&& dimensions.height as int == low32(
                        description.dimensions.height as int,
                    )
                },
            },
    {
        match format_desc {
            None => Err(NalError::NoFormatDescription),
            Some(description) => {
                let dims = description.dimensions;
                Ok(
                    VideoDimensions {
                        width: low32_of_i32(dims.width),
                        height: low32_of_i32(dims.height),
                    },
                )
            },
        }
    }

    /// Extract NAL units from an encoded sample buffer.
    ///
    /// The encoder writes H.264 in AVCC format where each NAL unit is
    /// prefixed with its length (typically 4 bytes, big-endian).
    pub fn extract_nal_units(&self, sample_buffer: &SampleBuffer) -> (result: Result<
        Vec<NalUnit>,
        NalError,
    >)
        ensures
            extracted(result) == sample_units(*sample_buffer),
    {
        let block_buffer = match &sample_buffer.data_buffer {
            Some(block_buffer) => block_buffer,
            None => {
                return Err(NalError::NoDataBuffer);
            },
        };

        let total_length = block_buffer.data.len();
        if total_length == 0 {
            let units: Vec<NalUnit> = Vec::new();
            assert(unit_views(units@) =~= Seq::empty());
            return Ok(units);
        }
        if block_buffer.pointer_status != 0 {
            return Err(NalError::DataPointerFailed(block_buffer.pointer_status));
        }
        // Get NAL unit length size from format description

        let nal_length_size: i32 = match &sample_buffer.format_description {
            Some(description) => description.nal_unit_header_length,
            None => 4,  // Default to 4 bytes
        };
        if nal_length_size < 0 {
            // No length field of such a width fits into any buffer.
            let units: Vec<NalUnit> = Vec::new();
            assert(unit_views(units@) =~= Seq::empty());
            return Ok(units);
        }
        self.parse_avcc_data(block_buffer.data.as_slice(), nal_length_size as usize)
    }

    /// Parse AVCC format data into NAL units.
    pub fn parse_avcc_data(&self, data: &[u8], nal_length_size: usize) -> (result: Result<
        Vec<NalUnit>,
        NalError,
    >)
        ensures
            extracted(result) == parse_avcc(data@, nal_length_size as int),
    {
        let total_length = data.len();
        let ghost width = nal_length_size as int;
        let mut nal_units: Vec<NalUnit> = Vec::new();
        let mut offset: usize = 0;
        assert(unit_views(nal_units@) =~= Seq::empty());
        assert(data@.subrange(0, total_length as int) =~= data@);

        while nal_length_size <= total_length - offset
            invariant
                offset <= total_length,
                total_length == data@.len(),
                width == nal_length_size as int,
                parse_avcc(data@, width) == prepend_units(
                    unit_views(nal_units@),
                    parse_avcc(data@.subrange(offset as int, total_length as int), width),
                ),
            decreases total_length - offset,
        {
            let ghost rest = data@.subrange(offset as int, total_length as int);
            // Read NAL unit length (big-endian)
            let nal_length: u64 = if nal_length_size == 4 {
                let b0 = data[offset] as u64;
                let b1 = data[offset + 1] as u64;
                let b2 = data[offset + 2] as u64;
                let b3 = data[offset + 3] as u64;
                proof {
                    let field = rest.subrange(0, 4);
                    reveal_with_fuel(be_value, 5);
                    assert(field.drop_last() =~= seq![field[0], field[1], field[2]]);
                    assert(field.drop_last().drop_last() =~= seq![field[0], field[1]]);
                    assert(field.drop_last().drop_last().drop_last() =~= seq![field[0]]);
                    assert(field.drop_last().drop_last().drop_last().drop_last() =~= Seq::<
                        u8,
                    >::empty());
                }
                ((b0 * 256 + b1) * 256 + b2) * 256 + b3
            } else if nal_length_size == 2 {
                let b0 = data[offset] as u64;
                let b1 = data[offset + 1] as u64;
                proof {
                    let field = rest.subrange(0, 2);
                    reveal_with_fuel(be_value, 3);
                    assert(field.drop_last() =~= seq![field[0]]);
                    assert(field.drop_last().drop_last() =~= Seq::<u8>::empty());
                }
                b0 * 256 + b1
            } else if nal_length_size == 1 {
                proof {
                    let field = rest.subrange(0, 1);
                    reveal_with_fuel(be_value, 2);
                    assert(field.drop_last() =~= Seq::<u8>::empty());
                }
                data[offset] as u64
            } else {
                return Err(NalError::InvalidNalLength);
            };
            assert(nal_length == be_value(rest.subrange(0, width)));

            let start: usize = offset + nal_length_size;

            if nal_length > (total_length - start) as u64 {
                return Err(NalError::BufferTooSmall);
            }
            if nal_length == 0 {
                return Err(NalError::InvalidNalLength);
            }
            let end: usize = start + nal_length as usize;

            // Read NAL unit data
            let nal_data = slice_subrange(data, start, end);
            let nal_type = nal_data[0] & 0x1F;
            let unit = NalUnit { data: slice_to_vec(nal_data), nal_type };

            proof {
                let before = unit_views(nal_units@);
                assert(unit@.data =~= rest.subrange(width, width + nal_length));
                assert(rest[width] == nal_data@[0]);
                assert(rest.subrange(width + nal_length, rest.len() as int) =~= data@.subrange(
                    end as int,
                    total_length as int,
                ));
                let after = parse_avcc(data@.subrange(end as int, total_length as int), width);
                assert(parse_avcc(rest, width) == prepend_units(seq![unit@], after));
                assert(unit_views(nal_units@.push(unit)) =~= before + seq![unit@]);
                assert(after is Ok ==> before + (seq![unit@] + after->Ok_0) =~= (before + seq![
                    unit@,
                ]) + after->Ok_0);
            }
            nal_units.push(unit);

            offset = end;
        }

        proof {
            assert(unit_views(nal_units@) + Seq::<NalUnitView>::empty() =~= unit_views(
                nal_units@,
            ));
        }
        Ok(nal_units)
    }

    /// Extract timing information from a sample buffer. Where the decode
    /// time is not valid, the presentation time stands in for it.
    pub fn get_timing(&self, sample_buffer: &SampleBuffer) -> (timing: SampleTiming)
        ensures
            timing.pts == sample_buffer.presentation_time.value,
            timing.dts == if sample_buffer.decode_time.flags & TIME_FLAG_VALID != 0 {
                sample_buffer.decode_time.value
            } else {
                sample_buffer.presentation_time.value
            },
            timing.duration == sample_buffer.duration.value,
            timing.timescale == sample_buffer.presentation_time.timescale,
    {
        let pts = sample_buffer.presentation_time;
        let dts = sample_buffer.decode_time;
        let duration = sample_buffer.duration;

        // If DTS is invalid, use PTS
        let dts_value = if dts.flags & TIME_FLAG_VALID != 0 {
            dts.value
        } else {
            pts.value
        };

        SampleTiming {
            pts: pts.value,
            dts: dts_value,
            duration: duration.value,
            timescale: pts.timescale,
        }
    }

    /// Check if a sample buffer represents a keyframe (sync sample).
    pub fn is_keyframe(&self, sample_buffer: &SampleBuffer) -> (keyframe: bool)
        ensures
            keyframe == sample_is_keyframe(*sample_buffer),
    {
        // Method 1: Check the sample attachments for the "not sync" entry
        match sample_buffer.not_sync {
            // The entry is absent, so this is a sync sample
            NotSyncAttachment::Absent => {
                return true;
            },
            // If present and true, it's not a sync sample
            NotSyncAttachment::Present { is_false } => {
                return is_false;
            },
            NotSyncAttachment::NoAttachments => {},
        }

        // Method 2: Fallback - check if we have an IDR NAL unit
        match self.extract_nal_units(sample_buffer) {
            Ok(nals) => {
                let ghost units = unit_views(nals@);
                let mut i: usize = 0;
                while i < nals.len()
                    invariant
                        i <= nals.len(),
                        units == unit_views(nals@),
                        sample_buffer.not_sync is NoAttachments,
                        sample_units(*sample_buffer) == Ok::<Seq<NalUnitView>, NalError>(units),
                        forall|j: int| 0 <= j < i ==> !(#[trigger] units[j]).is_idr(),
                    decreases nals.len() - i,
                {
                    if nals[i].is_idr() {
                        assert(units[i as int].is_idr());
                        return true;
                    }
                    i += 1;
                }
                false
            },
            Err(_) => false,
        }
    }

    /// Get the format description from a sample buffer.
    pub fn get_format_description<'a>(&self, sample_buffer: &'a SampleBuffer) -> (description:
        Option<&'a FormatDescription>)
        ensures
            match description {
                Some(found) => sample_buffer.format_description == Some(*found),
                None => sample_buffer.format_description is None,
            },
    {
        sample_buffer.format_description.as_ref()
    }
}

} // verus!
