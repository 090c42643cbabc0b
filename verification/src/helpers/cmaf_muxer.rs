//! CMAF (Common Media Application Format) muxer for H.264 video streams.
//!
//! The muxer turns encoded frames into fragmented MP4, suitable for live
//! streaming (DASH/HLS), Media Source Extensions in browsers and low-latency
//! video delivery.
//!
//! ```text
//! Initialization segment:
//!   ftyp (file type)
//!   moov (movie header with track info, SPS/PPS)
//!
//! Media segments:
//!   styp (segment type)
//!   moof (movie fragment header)
//!   mdat (media data - encoded NAL units)
//! ```
//!
//! Every function states the exact bytes it writes, over the layouts of
//! `boxes`. The muxer's behaviour as a whole is the state machine of
//! `MuxerState`.

use vstd::prelude::*;
use vstd::slice::slice_to_vec;
use super::be_bytes::{
    be32,
    low16,
    low16_of_len,
    low32,
    low32_of_i32,
    low32_of_len,
    low64_of_i64,
    put_be16,
    put_be32,
    put_be64,
    put_zeros,
    wrap_i32,
    zeros,
};
use super::boxes::{
    avc1,
    avc1_fields,
    avc1_payload,
    avcc,
    avcc_payload,
    compressor_name,
    data_offset,
    dinf,
    dinf_payload,
    dref,
    dref_payload,
    empty_table_payload,
    fourcc,
    ftyp,
    ftyp_payload,
    hdlr,
    hdlr_payload,
    identity_matrix,
    init_segment,
    mdat,
    mdhd,
    mdhd_payload,
    mdia,
    mdia_payload,
    media_segment,
    mfhd,
    mfhd_payload,
    minf,
    minf_payload,
    moof,
    moof_payload,
    moov,
    moov_payload,
    mvex,
    mvex_payload,
    mvhd,
    mvhd_payload,
    profile_bytes,
    put_ascii,
    put_box,
    put_fourcc,
    sample_data,
    sample_flags,
    stbl,
    stbl_payload,
    stco,
    stsc,
    stsd,
    stsd_payload,
    stsz,
    stsz_payload,
    stts,
    styp,
    styp_payload,
    tfdt,
    tfdt_payload,
    tfhd,
    tfhd_payload,
    tkhd,
    tkhd_payload,
    traf,
    traf_payload,
    trak,
    trak_payload,
    trex,
    trex_payload,
    trun,
    trun_entries,
    trun_entry,
    trun_payload,
    url_entry_payload,
    vmhd,
    vmhd_payload,
};
use super::nal_extractor::{NalUnit, NalUnitView, unit_views};
use super::segment_structure::{
    data_offset_leads_to,
    is_file_type_and_movie,
    lemma_data_offset_leads_to_samples,
    lemma_init_segment_boxes,
    lemma_track_payload_lens,
};

verus! {

/// Configuration for the CMAF muxer.
#[derive(Debug, Clone)]
pub struct CmafConfig {
    /// Target fragment duration in milliseconds.
    /// Fragments are aligned to keyframes, so actual duration may vary.
    pub fragment_duration_ms: u32,
    /// Timescale for timestamps (e.g., 90000 for standard video).
    pub timescale: u32,
}

impl Default for CmafConfig {
    fn default() -> (config: Self)
        ensures
            config.fragment_duration_ms == 2000,
            config.timescale == 90000,
    {
        Self { fragment_duration_ms: 2000, timescale: 90000 }
    }
}

/// One sample of an open fragment.
pub struct Sample {
    /// The coded slices of the sample, each behind a 4-byte length.
    pub data: Seq<u8>,
    /// Duration in timescale units.
    pub duration: u32,
    /// Whether this is a sync sample (keyframe).
    pub is_sync: bool,
    /// Composition time offset (PTS - DTS).
    pub composition_offset: i32,
}

/// A pending frame waiting to be muxed.
#[derive(Debug, Clone)]
struct PendingFrame {
    /// Encoded NAL unit data (in AVCC format for mdat)
    data: Vec<u8>,
    /// Duration in timescale units
    duration: u32,
    /// Is this a sync sample (keyframe)
    is_sync: bool,
    /// Composition time offset (PTS - DTS)
    composition_offset: i32,
}

impl View for PendingFrame {
    type V = Sample;

    closed spec fn view(&self) -> Sample {
        Sample {
            data: self.data@,
            duration: self.duration,
            is_sync: self.is_sync,
            composition_offset: self.composition_offset,
        }
    }
}

/// Fragmented MP4 muxer for H.264 video streams.
pub struct CmafMuxer {
    config: CmafConfig,
    /// Whether initialization segment has been created
    initialized: bool,
    /// Width in pixels
    width: u32,
    /// Height in pixels
    height: u32,
    /// SPS data (without NAL start code)
    sps: Vec<u8>,
    /// PPS data (without NAL start code)
    pps: Vec<u8>,
    /// Pending frames for current fragment
    pending_frames: Vec<PendingFrame>,
    /// Current fragment sequence number
    sequence_number: u32,
    /// Base DTS for current fragment
    fragment_base_dts: i64,
    /// Last frame's DTS
    last_dts: i64,
}

/// Everything a muxer holds.
pub struct MuxerState {
    pub config: CmafConfig,
    /// Whether the initialization segment has been created.
    pub initialized: bool,
    pub width: u32,
    pub height: u32,
    pub sps: Seq<u8>,
    pub pps: Seq<u8>,
    /// The samples of the open fragment, in submission order.
    pub pending: Seq<Sample>,
    /// Sequence number of the open fragment.
    pub sequence_number: u32,
    /// Decode time of the first sample of the open fragment.
    pub fragment_base_dts: i64,
    /// Decode time of the last frame taken in.
    pub last_dts: i64,
}

/// The one track of every stream that the muxer writes.
pub const VIDEO_TRACK_ID: u32 = 1;

impl View for CmafMuxer {
    type V = MuxerState;

    closed spec fn view(&self) -> MuxerState {
        MuxerState {
            config: self.config,
            initialized: self.initialized,
            width: self.width,
            height: self.height,
            sps: self.sps@,
            pps: self.pps@,
            pending: self.pending_frames@.map_values(|frame: PendingFrame| frame@),
            sequence_number: self.sequence_number,
            fragment_base_dts: self.fragment_base_dts,
            last_dts: self.last_dts,
        }
    }
}

impl MuxerState {
    /// A muxer that has taken in nothing yet.
    pub open spec fn fresh(config: CmafConfig) -> MuxerState {
        MuxerState {
            config,
            initialized: false,
            width: 0,
            height: 0,
            sps: Seq::empty(),
            pps: Seq::empty(),
            pending: Seq::empty(),
            sequence_number: 1,
            fragment_base_dts: 0,
            last_dts: 0,
        }
    }

    /// No frame is pending before the initialization segment was created.
    pub open spec fn valid(self) -> bool {
        !self.initialized ==> self.pending.len() == 0
    }

    /// The state after the initialization segment was created.
    pub open spec fn initialize(
        self,
        sps: Seq<u8>,
        pps: Seq<u8>,
        width: u32,
        height: u32,
    ) -> MuxerState {
        MuxerState { sps, pps, width, height, initialized: true, ..self }
    }

    /// The initialization segment for the stored parameter sets.
    pub open spec fn init_segment(self) -> Seq<u8> {
        init_segment(
            VIDEO_TRACK_ID,
            self.config.timescale,
            self.width,
            self.height,
            self.sps,
            self.pps,
        )
    }

    /// Time from the first sample of the open fragment to `dts`, in
    /// milliseconds.
    pub open spec fn elapsed_ms(self, dts: i64) -> int {
        elapsed_ms(self.fragment_base_dts, dts, self.config.timescale)
    }

    /// Whether a frame closes the open fragment: the fragment has a sample,
    /// the frame is a keyframe, and the target duration has passed since the
    /// fragment's first sample.
    pub open spec fn crosses_boundary(self, dts: i64, is_keyframe: bool) -> bool {
        &&& self.initialized
        &&& self.pending.len() > 0
        &&& is_keyframe
        &&& self.elapsed_ms(dts) >= self.config.fragment_duration_ms
    }

    /// The media segment of the open fragment.
    pub open spec fn fragment(self) -> Seq<u8> {
        media_segment(self.sequence_number, VIDEO_TRACK_ID, self.fragment_base_dts, self.pending)
    }

    /// The state after the open fragment was emitted.
    pub open spec fn close_fragment(self) -> MuxerState {
        MuxerState {
            sequence_number: (self.sequence_number + 1) as u32,
            pending: Seq::empty(),
            ..self
        }
    }

    /// The state after a sample joined the open fragment. The first sample
    /// of a fragment sets the fragment's base decode time.
    pub open spec fn append(self, dts: i64, sample: Sample) -> MuxerState {
        MuxerState {
            fragment_base_dts: if self.pending.len() == 0 {
                dts
            } else {
                self.fragment_base_dts
            },
            pending: self.pending.push(sample),
            last_dts: dts,
            ..self
        }
    }

    /// The state after a frame was submitted. Before initialization the
    /// frame is dropped. A frame that crosses the fragment boundary closes
    /// the open fragment and becomes the first sample of the next one.
    pub open spec fn after_frame(self, dts: i64, sample: Sample) -> MuxerState {
        if !self.initialized {
            self
        } else if self.crosses_boundary(dts, sample.is_sync) {
            self.close_fragment().append(dts, sample)
        } else {
            self.append(dts, sample)
        }
    }

    /// The segment that submitting a frame emits, if any.
    pub open spec fn emitted_by_frame(self, dts: i64, sample: Sample) -> Option<Seq<u8>> {
        if self.crosses_boundary(dts, sample.is_sync) {
            Some(self.fragment())
        } else {
            None
        }
    }

    /// The state after a flush.
    pub open spec fn after_flush(self) -> MuxerState {
        if self.pending.len() == 0 {
            self
        } else {
            self.close_fragment()
        }
    }

    /// The segment that a flush emits, if any.
    pub open spec fn emitted_by_flush(self) -> Option<Seq<u8>> {
        if self.pending.len() == 0 {
            None
        } else {
            Some(self.fragment())
        }
    }

    /// Whether a frame with this decode time can be submitted: where the
    /// elapsed time has to be computed the timescale is not zero, and where
    /// a fragment is emitted its sequence number has a successor.
    pub open spec fn accepts_frame(self, dts: i64, is_keyframe: bool) -> bool {
        self.initialized && self.pending.len() > 0 ==> {
            &&& self.config.timescale != 0
            &&& (self.crosses_boundary(dts, is_keyframe) ==> self.sequence_number < u32::MAX)
        }
    }
}

/// Time from `base_dts` to `dts` in milliseconds, rounded towards zero.
pub open spec fn elapsed_ms(base_dts: i64, dts: i64, timescale: u32) -> int {
    let ticks = (dts - base_dts) * 1000;
    if ticks >= 0 {
        ticks / (timescale as int)
    } else {
        -((-ticks) / (timescale as int))
    }
}

/// The payload of a sample: the coded slices among `units`, each behind its
/// length as a 4-byte big-endian field. Other NAL units are left out.
pub open spec fn sample_payload(units: Seq<NalUnitView>) -> Seq<u8>
    decreases units.len(),
{
    if units.len() == 0 {
        Seq::empty()
    } else if units.last().is_slice() {
        sample_payload(units.drop_last()) + be32(low32(units.last().data.len() as int))
            + units.last().data
    } else {
        sample_payload(units.drop_last())
    }
}

/// The sample that a submitted frame becomes.
pub open spec fn frame_sample(
    units: Seq<NalUnitView>,
    pts: i64,
    dts: i64,
    duration: u32,
    is_keyframe: bool,
) -> Sample {
    Sample {
        data: sample_payload(units),
        duration,
        is_sync: is_keyframe,
        composition_offset: wrap_i32(pts - dts) as i32,
    }
}

/// The bytes of an optional segment.
pub open spec fn segment_bytes(segment: Option<Vec<u8>>) -> Option<Seq<u8>> {
    match segment {
        Some(bytes) => Some(bytes@),
        None => None,
    }
}

/// The dependency flags of one sample in a track run. The four dependency
/// fields are two bits wide each.
#[derive(Debug, Clone, Copy, PartialEq, Eq, Structural)]
pub struct SampleFlags {
    /// Whether the sample is a leading sample (0: unknown).
    pub leading: u8,
    /// Whether the sample depends on others (1: yes, 2: no).
    pub depends_on: u8,
    /// Whether other samples depend on this one (0: unknown).
    pub is_depended_on: u8,
    /// Whether the sample has redundant coding (0: unknown).
    pub has_redundancy: u8,
    /// Whether the sample is not a sync sample.
    pub non_sync: bool,
}

impl SampleFlags {
    /// The packed 32-bit form of these flags. Only the low two bits of each
    /// dependency field count.
    pub open spec fn word(self) -> int {
        (self.leading % 4) * 0x400_0000 + (self.depends_on % 4) * 0x100_0000 + (
        self.is_depended_on % 4) * 0x40_0000 + (self.has_redundancy % 4) * 0x10_0000
            + if self.non_sync {
            0x1_0000int
        } else {
            0int
        }
    }

    /// The flags of a sample. A sync sample depends on no other sample; any
    /// other sample depends on an earlier one and is marked as non-sync.
    pub fn for_sample(is_sync: bool) -> (flags: Self)
        ensures
            flags == (SampleFlags {
                leading: 0,
                depends_on: if is_sync {
                    2u8
                } else {
                    1u8
                },
                is_depended_on: 0,
                has_redundancy: 0,
                non_sync: !is_sync,
            }),
            flags.word() == sample_flags(is_sync),
    {
        SampleFlags {
            leading: 0,
            depends_on: if is_sync {
                2
            } else {
                1
            },
            is_depended_on: 0,
            has_redundancy: 0,
            non_sync: !is_sync,
        }
    }

    /// Whether the sample is a leading sample.
    pub fn leading(&self) -> (r: u8)
        ensures
            r == self.leading,
    {
        self.leading
    }

    /// Whether the sample depends on others.
    pub fn depends_on(&self) -> (r: u8)
        ensures
            r == self.depends_on,
    {
        self.depends_on
    }

    /// Whether other samples depend on this one.
    pub fn is_depended_on(&self) -> (r: u8)
        ensures
            r == self.is_depended_on,
    {
        self.is_depended_on
    }

    /// Whether the sample has redundant coding.
    pub fn has_redundancy(&self) -> (r: u8)
        ensures
            r == self.has_redundancy,
    {
        self.has_redundancy
    }

    /// Whether the sample is not a sync sample.
    pub fn is_non_sync(&self) -> (r: bool)
        ensures
            r == self.non_sync,
    {
        self.non_sync
    }

    /// The packed representation, as the track run stores it.
    pub fn pack(&self) -> (word: u32)
        ensures
            word as int == self.word(),
    {
        let non_sync: u32 = if self.non_sync {
            0x1_0000
        } else {
            0
        };
        (self.leading % 4) as u32 * 0x400_0000 + (self.depends_on % 4) as u32 * 0x100_0000 + (
        self.is_depended_on % 4) as u32 * 0x40_0000 + (self.has_redundancy % 4) as u32 * 0x10_0000
            + non_sync
    }
}

impl CmafMuxer {
    /// Create a new CMAF muxer with the given configuration.
    pub fn new(config: CmafConfig) -> (muxer: Self)
        ensures
            muxer@ == MuxerState::fresh(config),
            muxer@.valid(),
    {
        let muxer = Self {
            config,
            initialized: false,
            width: 0,
            height: 0,
            sps: Vec::new(),
            pps: Vec::new(),
            pending_frames: Vec::new(),
            sequence_number: 1,
            fragment_base_dts: 0,
            last_dts: 0,
        };
        assert(muxer@.pending =~= Seq::empty());
        muxer
    }

    /// Create the initialization segment (ftyp + moov).
    ///
    /// This must be called once before adding frames. The initialization segment
    /// contains codec configuration (SPS/PPS) and must be sent before any media
    /// segments.
    ///
    /// # Arguments
    /// * `sps` - H.264 Sequence Parameter Set (without NAL start code or length prefix)
    /// * `pps` - H.264 Picture Parameter Set (without NAL start code or length prefix)
    /// * `width` - Video width in pixels
    /// * `height` - Video height in pixels
    pub fn create_init_segment(
        &mut self,
        sps: &[u8],
        pps: &[u8],
        width: u32,
        height: u32,
    ) -> (segment: Vec<u8>)
        requires
            !old(self)@.initialized,
        ensures
            final(self)@ == old(self)@.initialize(sps@, pps@, width, height),
            segment@ == final(self)@.init_segment(),
            segment@.len() == 642 + sps@.len() + pps@.len(),
            segment@.len() < 0x1_0000_0000 ==> is_file_type_and_movie(segment@),
            old(self)@.valid() ==> final(self)@.valid(),
    {
        proof {
            lemma_track_payload_lens(
                VIDEO_TRACK_ID,
                old(self)@.config.timescale,
                width,
                height,
                sps@,
                pps@,
            );
            if 642 + sps@.len() + pps@.len() < 0x1_0000_0000 {
                lemma_init_segment_boxes(
                    VIDEO_TRACK_ID,
                    old(self)@.config.timescale,
                    width,
                    height,
                    sps@,
                    pps@,
                );
            }
        }
        self.sps = slice_to_vec(sps);
        self.pps = slice_to_vec(pps);
        self.width = width;
        self.height = height;
        self.initialized = true;

        let mut buf = Vec::new();

        // ftyp box
        self.write_ftyp(&mut buf);
        assert(buf@ == ftyp().bytes());

        // moov box
        self.write_moov(&mut buf);

        buf
    }

    /// Add an encoded frame to the muxer.
    ///
    /// Returns a media segment when a new keyframe arrives after the target
    /// fragment duration: the segment holds the frames before this one, and
    /// this frame opens the next fragment. Before the initialization segment
    /// was created the frame is dropped.
    ///
    /// # Arguments
    /// * `nal_units` - NAL units for this frame (video slices, not SPS/PPS)
    /// * `pts` - Presentation timestamp in timescale units
    /// * `dts` - Decode timestamp in timescale units
    /// * `duration` - Frame duration in timescale units
    /// * `is_keyframe` - Whether this is a sync sample (IDR frame)
    pub fn add_frame(
        &mut self,
        nal_units: &[NalUnit],
        pts: i64,
        dts: i64,
        duration: u32,
        is_keyframe: bool,
    ) -> (segment: Option<Vec<u8>>)
        requires
            old(self)@.accepts_frame(dts, is_keyframe),
        ensures
            final(self)@ == old(self)@.after_frame(
                dts,
                frame_sample(unit_views(nal_units@), pts, dts, duration, is_keyframe),
            ),
            segment_bytes(segment) == old(self)@.emitted_by_frame(
                dts,
                frame_sample(unit_views(nal_units@), pts, dts, duration, is_keyframe),
            ),
            segment is Some ==> old(self)@.initialized && old(self)@.pending.len() > 0
                && is_keyframe,
            segment matches Some(bytes) ==> (data_offset(old(self)@.pending.len() as int)
                < 0x1_0000_0000 ==> data_offset_leads_to(
                bytes@,
                sample_data(old(self)@.pending),
            )),
            old(self)@.valid() ==> final(self)@.valid(),
    {
        if !self.initialized {
            return None;
        }
        // Check if we should start a new fragment

        let should_flush = if self.pending_frames.is_empty() {
            false
        } else {
            // Flush if we have a keyframe and exceeded target duration
            let ticks: i128 = (dts as i128 - self.fragment_base_dts as i128) * 1000;
            let fragment_duration = ticks / (self.config.timescale as i128);
            is_keyframe && fragment_duration >= self.config.fragment_duration_ms as i128
        };
        assert(should_flush == old(self)@.crosses_boundary(dts, is_keyframe));

        let segment = if should_flush {
            Some(self.flush_fragment())
        } else {
            None
        };

        // Convert NAL units to AVCC format for mdat
        let data = self.nal_units_to_avcc(nal_units);

        // If this is the first frame in a fragment, record base DTS
        if self.pending_frames.is_empty() {
            self.fragment_base_dts = dts;
        }
        let composition_offset = composition_offset(pts, dts);

        let ghost before = self@;
        self.pending_frames.push(
            PendingFrame { data, duration, is_sync: is_keyframe, composition_offset },
        );
        assert(self@.pending =~= before.pending.push(
            frame_sample(unit_views(nal_units@), pts, dts, duration, is_keyframe),
        ));

        self.last_dts = dts;

        segment
    }

    /// Whether `add_frame` takes a frame with this decode time: it does
    /// unless the timescale is zero where the elapsed time has to be
    /// computed, or the sequence number has no successor where a fragment
    /// would be emitted.
    pub fn can_add_frame(&self, dts: i64, is_keyframe: bool) -> (ok: bool)
        ensures
            ok == self@.accepts_frame(dts, is_keyframe),
    {
        if !self.initialized || self.pending_frames.is_empty() {
            return true;
        }
        if self.config.timescale == 0 {
            return false;
        }
        let ticks: i128 = (dts as i128 - self.fragment_base_dts as i128) * 1000;
        let fragment_duration = ticks / (self.config.timescale as i128);
        let crosses = is_keyframe && fragment_duration >= self.config.fragment_duration_ms as i128;
        !crosses || self.sequence_number < u32::MAX
    }

    /// Whether `flush` can emit what is pending: it can unless frames are
    /// pending and the sequence number has no successor.
    pub fn can_flush(&self) -> (ok: bool)
        ensures
            ok == (self@.pending.len() > 0 ==> self@.sequence_number < u32::MAX),
    {
        self.pending_frames.is_empty() || self.sequence_number < u32::MAX
    }

    /// Flush any remaining frames as a final segment.
    ///
    /// Call this when encoding is complete to get the last fragment.
    pub fn flush(&mut self) -> (segment: Option<Vec<u8>>)
        requires
            old(self)@.pending.len() > 0 ==> old(self)@.sequence_number < u32::MAX,
        ensures
            final(self)@ == old(self)@.after_flush(),
            segment_bytes(segment) == old(self)@.emitted_by_flush(),
            old(self)@.valid() && segment is Some ==> old(self)@.initialized,
            segment matches Some(bytes) ==> (data_offset(old(self)@.pending.len() as int)
                < 0x1_0000_0000 ==> data_offset_leads_to(
                bytes@,
                sample_data(old(self)@.pending),
            )),
            old(self)@.valid() ==> final(self)@.valid(),
    {
        if self.pending_frames.is_empty() {
            return None;
        }
        Some(self.flush_fragment())
    }

    /// Convert NAL units to AVCC format (length-prefixed).
    pub fn nal_units_to_avcc(&self, nal_units: &[NalUnit]) -> (buf: Vec<u8>)
        ensures
            buf@ == sample_payload(unit_views(nal_units@)),
    {
        let mut buf = Vec::new();
        let ghost units = unit_views(nal_units@);

        let mut i: usize = 0;
        while i < nal_units.len()
            invariant
                i <= nal_units.len(),
                units == unit_views(nal_units@),
                buf@ == sample_payload(units.take(i as int)),
            decreases nal_units.len() - i,
        {
            let nal = &nal_units[i];
            proof {
                assert(units.take(i + 1).drop_last() =~= units.take(i as int));
                assert(units.take(i + 1).last() == nal@);
            }
            // Only include video slices
            if nal.is_slice() {
                put_be32(&mut buf, low32_of_len(nal.data.len()));
                buf.extend_from_slice(nal.data.as_slice());
            }
            i += 1;
        }
        assert(units.take(i as int) =~= units);

        buf
    }

    /// Create a media segment from pending frames.
    pub fn flush_fragment(&mut self) -> (buf: Vec<u8>)
        requires
            old(self)@.sequence_number < u32::MAX,
        ensures
            buf@ == old(self)@.fragment(),
            final(self)@ == old(self)@.close_fragment(),
            data_offset(old(self)@.pending.len() as int) < 0x1_0000_0000 ==> data_offset_leads_to(
                buf@,
                sample_data(old(self)@.pending),
            ),
            old(self)@.valid() ==> final(self)@.valid(),
    {
        proof {
            if data_offset(self@.pending.len() as int) < 0x1_0000_0000 {
                lemma_data_offset_leads_to_samples(
                    self@.sequence_number,
                    VIDEO_TRACK_ID,
                    self@.fragment_base_dts,
                    self@.pending,
                );
            }
        }
        let mut buf = Vec::new();

        // styp box (some players require it)
        self.write_styp(&mut buf);
        assert(buf@ == styp().bytes());

        // moof box
        self.write_moof(&mut buf);

        // mdat box
        self.write_mdat(&mut buf);

        self.sequence_number += 1;
        self.pending_frames.clear();
        assert(self@.pending =~= Seq::empty());

        buf
    }

    /// Get the current sequence number.
    pub fn sequence_number(&self) -> (n: u32)
        ensures
            n == self@.sequence_number,
    {
        self.sequence_number
    }

    /// Check if the muxer has been initialized.
    pub fn is_initialized(&self) -> (b: bool)
        ensures
            b == self@.initialized,
    {
        self.initialized
    }

    /// Get the number of pending frames.
    pub fn pending_frame_count(&self) -> (n: usize)
        ensures
            n == self@.pending.len(),
    {
        self.pending_frames.len()
    }

    // ========================================
    // Box writing helpers
    // ========================================

    /// Appends the file type box.
    pub fn write_ftyp(&self, buf: &mut Vec<u8>)
        ensures
            final(buf)@ == old(buf)@ + ftyp().bytes(),
    {
        proof {
            reveal(ftyp_payload);
        }
        let mut content = Vec::new();
        put_fourcc(&mut content, 'i', 's', 'o', 'm');  // major brand
        assert(content@ == fourcc('i', 's', 'o', 'm'));
        put_be32(&mut content, 0);  // minor version
        put_fourcc(&mut content, 'i', 's', 'o', 'm');  // ISO Base Media
        put_fourcc(&mut content, 'i', 's', 'o', '6');  // ISO with fragments
        put_fourcc(&mut content, 'c', 'm', 'f', 'c');  // CMAF compliant
        put_fourcc(&mut content, 'c', 'm', 'f', 'v');  // CMAF video track
        put_fourcc(&mut content, 'a', 'v', 'c', '1');  // H.264
        put_fourcc(&mut content, 'm', 'p', '4', '1');  // MP4 v1
        put_box(buf, 'f', 't', 'y', 'p', &content);
    }

    /// Appends the segment type box.
    pub fn write_styp(&self, buf: &mut Vec<u8>)
        ensures
            final(buf)@ == old(buf)@ + styp().bytes(),
    {
        proof {
            reveal(styp_payload);
        }
        let mut content = Vec::new();
        put_fourcc(&mut content, 'c', 'm', 'f', 'v');  // major brand (CMAF video)
        assert(content@ == fourcc('c', 'm', 'f', 'v'));
        put_be32(&mut content, 0);  // minor version
        put_fourcc(&mut content, 'm', 's', 'd', 'h');  // Media Segment Data Handler
        put_fourcc(&mut content, 'm', 's', 'i', 'x');  // Media Segment Index
        put_fourcc(&mut content, 'c', 'm', 'f', 'c');  // CMAF compliant
        put_fourcc(&mut content, 'c', 'm', 'f', 'v');  // CMAF video track
        put_box(buf, 's', 't', 'y', 'p', &content);
    }

    /// Appends the movie box.
    pub fn write_moov(&self, buf: &mut Vec<u8>)
        ensures
            final(buf)@ == old(buf)@ + moov(
                VIDEO_TRACK_ID,
                self@.config.timescale,
                self@.width,
                self@.height,
                self@.sps,
                self@.pps,
            ).bytes(),
    {
        proof {
            reveal(moov_payload);
        }
        let mut moov_content = Vec::new();

        // mvhd (movie header)
        self.write_mvhd(&mut moov_content);
        assert(moov_content@ == mvhd(self@.config.timescale).bytes());

        // trak (track)
        self.write_trak(&mut moov_content);

        // mvex (movie extends - required for fragmented MP4)
        self.write_mvex(&mut moov_content);

        put_box(buf, 'm', 'o', 'o', 'v', &moov_content);
    }

    /// Appends the movie header box.
    pub fn write_mvhd(&self, buf: &mut Vec<u8>)
        ensures
            final(buf)@ == old(buf)@ + mvhd(self@.config.timescale).bytes(),
    {
        proof {
            reveal(mvhd_payload);
        }
        let mut content = full_box_start(0, 0, 0, 0);

        put_be32(&mut content, 0);  // creation time
        put_be32(&mut content, 0);  // modification time
        put_be32(&mut content, self.config.timescale);  // timescale
        put_be32(&mut content, 0);  // duration (unknown for live)

        put_be32(&mut content, 0x0001_0000);  // rate (1.0)
        put_be16(&mut content, 0x0100);  // volume (1.0)
        put_zeros(&mut content, 2);  // reserved
        put_zeros(&mut content, 8);  // reserved

        put_identity_matrix(&mut content);

        put_zeros(&mut content, 24);  // pre_defined
        put_be32(&mut content, 2);  // next_track_id

        put_box(buf, 'm', 'v', 'h', 'd', &content);
    }

    /// Appends the track box.
    pub fn write_trak(&self, buf: &mut Vec<u8>)
        ensures
            final(buf)@ == old(buf)@ + trak(
                VIDEO_TRACK_ID,
                self@.config.timescale,
                self@.width,
                self@.height,
                self@.sps,
                self@.pps,
            ).bytes(),
    {
        proof {
            reveal(trak_payload);
        }
        let mut trak_content = Vec::new();

        self.write_tkhd(&mut trak_content);
        assert(trak_content@ == tkhd(VIDEO_TRACK_ID, self@.width, self@.height).bytes());
        self.write_mdia(&mut trak_content);

        put_box(buf, 't', 'r', 'a', 'k', &trak_content);
    }

    /// Appends the track header box.
    pub fn write_tkhd(&self, buf: &mut Vec<u8>)
        ensures
            final(buf)@ == old(buf)@ + tkhd(VIDEO_TRACK_ID, self@.width, self@.height).bytes(),
    {
        proof {
            reveal(tkhd_payload);
        }
        let mut content = full_box_start(0, 0, 0, 3);  // flags (track enabled, in movie)

        put_be32(&mut content, 0);  // creation time
        put_be32(&mut content, 0);  // modification time
        put_be32(&mut content, VIDEO_TRACK_ID);  // track id
        put_be32(&mut content, 0);  // reserved
        put_be32(&mut content, 0);  // duration (unknown)

        put_zeros(&mut content, 8);  // reserved
        put_be16(&mut content, 0);  // layer
        put_be16(&mut content, 0);  // alternate_group
        put_be16(&mut content, 0);  // volume (video = 0)
        put_be16(&mut content, 0);  // reserved

        put_identity_matrix(&mut content);

        // Width and height as 16.16 fixed point
        put_be32(&mut content, fixed_16_16(self.width));
        put_be32(&mut content, fixed_16_16(self.height));

        put_box(buf, 't', 'k', 'h', 'd', &content);
    }

    /// Appends the media box.
    pub fn write_mdia(&self, buf: &mut Vec<u8>)
        ensures
            final(buf)@ == old(buf)@ + mdia(
                self@.config.timescale,
                self@.width,
                self@.height,
                self@.sps,
                self@.pps,
            ).bytes(),
    {
        proof {
            reveal(mdia_payload);
        }
        let mut mdia_content = Vec::new();

        self.write_mdhd(&mut mdia_content);
        assert(mdia_content@ == mdhd(self@.config.timescale).bytes());
        self.write_hdlr(&mut mdia_content);
        self.write_minf(&mut mdia_content);

        put_box(buf, 'm', 'd', 'i', 'a', &mdia_content);
    }

    /// Appends the media header box.
    pub fn write_mdhd(&self, buf: &mut Vec<u8>)
        ensures
            final(buf)@ == old(buf)@ + mdhd(self@.config.timescale).bytes(),
    {
        proof {
            reveal(mdhd_payload);
        }
        let mut content = full_box_start(0, 0, 0, 0);

        put_be32(&mut content, 0);  // creation time
        put_be32(&mut content, 0);  // modification time
        put_be32(&mut content, self.config.timescale);  // timescale
        put_be32(&mut content, 0);  // duration

        put_be16(&mut content, 0x55c4);  // language (und)
        put_be16(&mut content, 0);  // pre_defined

        put_box(buf, 'm', 'd', 'h', 'd', &content);
    }

    /// Appends the handler reference box.
    pub fn write_hdlr(&self, buf: &mut Vec<u8>)
        ensures
            final(buf)@ == old(buf)@ + hdlr().bytes(),
    {
        proof {
            reveal(hdlr_payload);
        }
        let mut content = full_box_start(0, 0, 0, 0);

        put_be32(&mut content, 0);  // pre_defined
        put_fourcc(&mut content, 'v', 'i', 'd', 'e');  // handler_type
        put_zeros(&mut content, 12);  // reserved
        proof {
            reveal_strlit("VideoHandler\0");
        }
        put_ascii(&mut content, "VideoHandler\0");  // name

        put_box(buf, 'h', 'd', 'l', 'r', &content);
    }

    /// Appends the media information box.
    pub fn write_minf(&self, buf: &mut Vec<u8>)
        ensures
            final(buf)@ == old(buf)@ + minf(
                self@.width,
                self@.height,
                self@.sps,
                self@.pps,
            ).bytes(),
    {
        proof {
            reveal(minf_payload);
        }
        let mut minf_content = Vec::new();

        self.write_vmhd(&mut minf_content);
        assert(minf_content@ == vmhd().bytes());
        self.write_dinf(&mut minf_content);
        self.write_stbl(&mut minf_content);

        put_box(buf, 'm', 'i', 'n', 'f', &minf_content);
    }

    /// Appends the video media header box.
    pub fn write_vmhd(&self, buf: &mut Vec<u8>)
        ensures
            final(buf)@ == old(buf)@ + vmhd().bytes(),
    {
        proof {
            reveal(vmhd_payload);
        }
        let mut content = full_box_start(0, 0, 0, 1);

        put_be16(&mut content, 0);  // graphics_mode
        put_zeros(&mut content, 6);  // opcolor

        put_box(buf, 'v', 'm', 'h', 'd', &content);
    }

    /// Appends the data information box.
    pub fn write_dinf(&self, buf: &mut Vec<u8>)
        ensures
            final(buf)@ == old(buf)@ + dinf().bytes(),
    {
        proof {
            reveal(dinf_payload);
            reveal(dref_payload);
            reveal(url_entry_payload);
        }
        // url entry (self-contained)
        let url_content = full_box_start(0, 0, 0, 1);

        // dref box
        let mut dref_content = full_box_start(0, 0, 0, 0);
        put_be32(&mut dref_content, 1);  // entry_count
        put_box(&mut dref_content, 'u', 'r', 'l', ' ', &url_content);

        let mut dinf_content = Vec::new();
        put_box(&mut dinf_content, 'd', 'r', 'e', 'f', &dref_content);
        assert(dinf_content@ == dref().bytes());

        put_box(buf, 'd', 'i', 'n', 'f', &dinf_content);
    }

    /// Appends the sample table box.
    pub fn write_stbl(&self, buf: &mut Vec<u8>)
        ensures
            final(buf)@ == old(buf)@ + stbl(
                self@.width,
                self@.height,
                self@.sps,
                self@.pps,
            ).bytes(),
    {
        proof {
            reveal(stbl_payload);
        }
        let mut stbl_content = Vec::new();

        self.write_stsd(&mut stbl_content);
        assert(stbl_content@ == stsd(self@.width, self@.height, self@.sps, self@.pps).bytes());
        self.write_empty_stts(&mut stbl_content);
        self.write_empty_stsc(&mut stbl_content);
        self.write_empty_stsz(&mut stbl_content);
        self.write_empty_stco(&mut stbl_content);

        put_box(buf, 's', 't', 'b', 'l', &stbl_content);
    }

    /// Appends the sample description box.
    pub fn write_stsd(&self, buf: &mut Vec<u8>)
        ensures
            final(buf)@ == old(buf)@ + stsd(
                self@.width,
                self@.height,
                self@.sps,
                self@.pps,
            ).bytes(),
    {
        proof {
            reveal(stsd_payload);
        }
        let mut stsd_content = full_box_start(0, 0, 0, 0);
        put_be32(&mut stsd_content, 1);  // entry_count

        // avc1 sample entry
        self.write_avc1(&mut stsd_content);

        put_box(buf, 's', 't', 's', 'd', &stsd_content);
    }

    /// Appends the H.264 sample entry.
    pub fn write_avc1(&self, buf: &mut Vec<u8>)
        ensures
            final(buf)@ == old(buf)@ + avc1(
                self@.width,
                self@.height,
                self@.sps,
                self@.pps,
            ).bytes(),
    {
        proof {
            reveal(avc1_payload);
            reveal(avc1_fields);
        }
        let mut avc1_content = Vec::new();

        put_zeros(&mut avc1_content, 6);  // reserved
        assert(avc1_content@ == zeros(6));
        put_be16(&mut avc1_content, 1);  // data_reference_index

        put_be16(&mut avc1_content, 0);  // pre_defined
        put_be16(&mut avc1_content, 0);  // reserved
        put_zeros(&mut avc1_content, 12);  // pre_defined

        put_be16(&mut avc1_content, low16_of_u32(self.width));
        put_be16(&mut avc1_content, low16_of_u32(self.height));

        put_be32(&mut avc1_content, 0x0048_0000);  // horiz resolution 72 dpi
        put_be32(&mut avc1_content, 0x0048_0000);  // vert resolution 72 dpi
        put_be32(&mut avc1_content, 0);  // reserved
        put_be16(&mut avc1_content, 1);  // frame_count

        // Compressor name (32 bytes)
        put_compressor_name(&mut avc1_content);

        put_be16(&mut avc1_content, 0x0018);  // depth (24-bit)
        put_be16(&mut avc1_content, 0xFFFF);  // pre_defined (-1)

        // avcC box
        self.write_avcc(&mut avc1_content);

        put_box(buf, 'a', 'v', 'c', '1', &avc1_content);
    }

    /// Appends the decoder configuration box.
    pub fn write_avcc(&self, buf: &mut Vec<u8>)
        ensures
            final(buf)@ == old(buf)@ + avcc(self@.sps, self@.pps).bytes(),
    {
        proof {
            reveal(avcc_payload);
        }
        let mut avcc_content = Vec::new();

        avcc_content.push(1);  // configuration_version
        assert(avcc_content@ == seq![1u8]);

        // Profile, compatibility, and level from SPS
        if self.sps.len() >= 4 {
            avcc_content.push(self.sps[1]);  // profile_idc
            avcc_content.push(self.sps[2]);  // profile_compatibility
            avcc_content.push(self.sps[3]);  // level_idc
        } else {
            avcc_content.extend_from_slice(&[0x64, 0x00, 0x1f]);  // High profile, level 3.1
        }
        assert(avcc_content@ == seq![1u8] + profile_bytes(self@.sps));

        avcc_content.push(0xFF);  // length_size_minus_one (3 = 4 bytes) | reserved (0b111111)
        assert(avcc_content@ == seq![1u8] + profile_bytes(self@.sps) + seq![0xFFu8]);

        // SPS
        avcc_content.push(0xE1);  // num_sps | reserved (0b111)
        assert(avcc_content@ == seq![1u8] + profile_bytes(self@.sps) + seq![0xFFu8]
            + seq![0xE1u8]);
        put_be16(&mut avcc_content, low16_of_len(self.sps.len()));
        avcc_content.extend_from_slice(self.sps.as_slice());

        // PPS
        let ghost before_pps = avcc_content@;
        avcc_content.push(1);  // num_pps
        assert(avcc_content@ == before_pps + seq![1u8]);
        put_be16(&mut avcc_content, low16_of_len(self.pps.len()));
        avcc_content.extend_from_slice(self.pps.as_slice());

        put_box(buf, 'a', 'v', 'c', 'C', &avcc_content);
    }

    /// Appends an empty time-to-sample box.
    pub fn write_empty_stts(&self, buf: &mut Vec<u8>)
        ensures
            final(buf)@ == old(buf)@ + stts().bytes(),
    {
        proof {
            reveal(empty_table_payload);
        }
        let mut content = full_box_start(0, 0, 0, 0);
        put_be32(&mut content, 0);  // entry_count

        put_box(buf, 's', 't', 't', 's', &content);
    }

    /// Appends an empty sample-to-chunk box.
    pub fn write_empty_stsc(&self, buf: &mut Vec<u8>)
        ensures
            final(buf)@ == old(buf)@ + stsc().bytes(),
    {
        proof {
            reveal(empty_table_payload);
        }
        let mut content = full_box_start(0, 0, 0, 0);
        put_be32(&mut content, 0);  // entry_count

        put_box(buf, 's', 't', 's', 'c', &content);
    }

    /// Appends an empty sample size box.
    pub fn write_empty_stsz(&self, buf: &mut Vec<u8>)
        ensures
            final(buf)@ == old(buf)@ + stsz().bytes(),
    {
        proof {
            reveal(stsz_payload);
        }
        let mut content = full_box_start(0, 0, 0, 0);
        put_be32(&mut content, 0);  // sample_size
        put_be32(&mut content, 0);  // sample_count

        put_box(buf, 's', 't', 's', 'z', &content);
    }

    /// Appends an empty chunk offset box.
    pub fn write_empty_stco(&self, buf: &mut Vec<u8>)
        ensures
            final(buf)@ == old(buf)@ + stco().bytes(),
    {
        proof {
            reveal(empty_table_payload);
        }
        let mut content = full_box_start(0, 0, 0, 0);
        put_be32(&mut content, 0);  // entry_count

        put_box(buf, 's', 't', 'c', 'o', &content);
    }

    /// Appends the movie extends box.
    pub fn write_mvex(&self, buf: &mut Vec<u8>)
        ensures
            final(buf)@ == old(buf)@ + mvex(VIDEO_TRACK_ID).bytes(),
    {
        proof {
            reveal(mvex_payload);
        }
        let mut mvex_content = Vec::new();

        // trex box
        self.write_trex(&mut mvex_content);
        assert(mvex_content@ == trex(VIDEO_TRACK_ID).bytes());

        put_box(buf, 'm', 'v', 'e', 'x', &mvex_content);
    }

    /// Appends the track extends box.
    pub fn write_trex(&self, buf: &mut Vec<u8>)
        ensures
            final(buf)@ == old(buf)@ + trex(VIDEO_TRACK_ID).bytes(),
    {
        proof {
            reveal(trex_payload);
        }
        let mut content = full_box_start(0, 0, 0, 0);
        put_be32(&mut content, VIDEO_TRACK_ID);  // track_id
        put_be32(&mut content, 1);  // default_sample_description_index
        put_be32(&mut content, 0);  // default_sample_duration
        put_be32(&mut content, 0);  // default_sample_size
        put_be32(&mut content, 0);  // default_sample_flags

        put_box(buf, 't', 'r', 'e', 'x', &content);
    }

    /// Appends the movie fragment box of the open fragment.
    pub fn write_moof(&self, buf: &mut Vec<u8>)
        ensures
            final(buf)@ == old(buf)@ + moof(
                self@.sequence_number,
                VIDEO_TRACK_ID,
                self@.fragment_base_dts,
                self@.pending,
            ).bytes(),
    {
        proof {
            reveal(moof_payload);
        }
        let mut moof_content = Vec::new();

        // mfhd (movie fragment header)
        self.write_mfhd(&mut moof_content);
        assert(moof_content@ == mfhd(self@.sequence_number).bytes());

        // traf (track fragment)
        self.write_traf(&mut moof_content);

        put_box(buf, 'm', 'o', 'o', 'f', &moof_content);
    }

    /// Appends the movie fragment header box.
    pub fn write_mfhd(&self, buf: &mut Vec<u8>)
        ensures
            final(buf)@ == old(buf)@ + mfhd(self@.sequence_number).bytes(),
    {
        proof {
            reveal(mfhd_payload);
        }
        let mut content = full_box_start(0, 0, 0, 0);
        put_be32(&mut content, self.sequence_number);

        put_box(buf, 'm', 'f', 'h', 'd', &content);
    }

    /// Appends the track fragment box of the open fragment.
    pub fn write_traf(&self, buf: &mut Vec<u8>)
        ensures
            final(buf)@ == old(buf)@ + traf(
                VIDEO_TRACK_ID,
                self@.fragment_base_dts,
                self@.pending,
            ).bytes(),
    {
        proof {
            reveal(traf_payload);
        }
        let mut traf_content = Vec::new();

        // tfhd (track fragment header)
        self.write_tfhd(&mut traf_content);
        assert(traf_content@ == tfhd(VIDEO_TRACK_ID).bytes());

        // tfdt (track fragment decode time)
        self.write_tfdt(&mut traf_content);

        // trun (track run)
        self.write_trun(&mut traf_content, buf.len());

        put_box(buf, 't', 'r', 'a', 'f', &traf_content);
    }

    /// Appends the track fragment header box.
    pub fn write_tfhd(&self, buf: &mut Vec<u8>)
        ensures
            final(buf)@ == old(buf)@ + tfhd(VIDEO_TRACK_ID).bytes(),
    {
        proof {
            reveal(tfhd_payload);
        }
        // flags: default-base-is-moof (0x020000)
        let mut content = full_box_start(0, 0x02, 0x00, 0x00);
        put_be32(&mut content, VIDEO_TRACK_ID);

        put_box(buf, 't', 'f', 'h', 'd', &content);
    }

    /// Appends the track fragment decode time box.
    pub fn write_tfdt(&self, buf: &mut Vec<u8>)
        ensures
            final(buf)@ == old(buf)@ + tfdt(self@.fragment_base_dts).bytes(),
    {
        proof {
            reveal(tfdt_payload);
        }
        let mut content = full_box_start(1, 0, 0, 0);  // version 1 for 64-bit time
        put_be64(&mut content, low64_of_i64(self.fragment_base_dts));

        put_box(buf, 't', 'f', 'd', 't', &content);
    }

    /// Appends the track run box of the open fragment. The data offset is
    /// computed from the sizes of the boxes around the run; where in the
    /// buffer the movie fragment starts does not enter it.
    pub fn write_trun(&self, buf: &mut Vec<u8>, _moof_offset: usize)
        ensures
            final(buf)@ == old(buf)@ + trun(self@.pending).bytes(),
    {
        proof {
            reveal(trun_payload);
        }
        let sample_count: u32 = low32_of_len(self.pending_frames.len());

        // trun: header (8), version + flags (4), sample_count (4),
        // data_offset (4), then per sample duration, size, flags and
        // composition offset (16).
        let trun_content_size: u64 = 4 + 4 + 4 + (sample_count as u64 * 16);
        let trun_size: u64 = 8 + trun_content_size;

        // moof size = 8 + mfhd_size + traf_size
        // traf size = 8 + tfhd_size + tfdt_size + trun_size
        let tfhd_size: u64 = 8 + 8;  // version/flags + track_id
        let tfdt_size: u64 = 8 + 12;  // version/flags + 64-bit time
        let traf_size: u64 = 8 + tfhd_size + tfdt_size + trun_size;
        let mfhd_size: u64 = 8 + 8;
        let moof_size: u64 = 8 + mfhd_size + traf_size;

        // data_offset is from start of moof to first byte of mdat data
        // = moof_size + 8 (mdat header)
        let offset: u64 = moof_size + 8;
        assert(offset == data_offset(sample_count as int));

        // flags: data-offset-present (0x000001), sample-duration (0x000100),
        // sample-size (0x000200), sample-flags (0x000400),
        // sample-composition-time-offsets (0x000800)
        let mut content = full_box_start(0, 0x00, 0x0F, 0x01);
        put_be32(&mut content, sample_count);
        put_be32(&mut content, (offset % 0x1_0000_0000) as u32);

        let ghost head = content@;
        let ghost samples = self@.pending;
        let mut i: usize = 0;
        while i < self.pending_frames.len()
            invariant
                i <= self.pending_frames.len(),
                samples == self@.pending,
                content@ == head + trun_entries(samples.take(i as int)),
            decreases self.pending_frames.len() - i,
        {
            let frame = &self.pending_frames[i];
            proof {
                assert(samples.take(i + 1).drop_last() =~= samples.take(i as int));
                assert(samples.take(i + 1).last() == frame@);
            }
            let ghost entries = content@;
            put_be32(&mut content, frame.duration);
            put_be32(&mut content, low32_of_len(frame.data.len()));

            // Sample flags
            let flags = SampleFlags::for_sample(frame.is_sync);
            put_be32(&mut content, flags.pack());

            put_be32(&mut content, low32_of_i32(frame.composition_offset));
            assert(content@ =~= entries + trun_entry(frame@));
            assert(content@ =~= head + trun_entries(samples.take(i + 1)));
            i += 1;
        }
        assert(samples.take(i as int) =~= samples);

        put_box(buf, 't', 'r', 'u', 'n', &content);
    }

    /// Appends the media data box of the open fragment.
    pub fn write_mdat(&self, buf: &mut Vec<u8>)
        ensures
            final(buf)@ == old(buf)@ + mdat(self@.pending).bytes(),
    {
        let ghost samples = self@.pending;
        let mut payload = Vec::new();
        let mut i: usize = 0;
        while i < self.pending_frames.len()
            invariant
                i <= self.pending_frames.len(),
                samples == self@.pending,
                payload@ == sample_data(samples.take(i as int)),
            decreases self.pending_frames.len() - i,
        {
            let frame = &self.pending_frames[i];
            proof {
                assert(samples.take(i + 1).drop_last() =~= samples.take(i as int));
                assert(samples.take(i + 1).last() == frame@);
            }
            payload.extend_from_slice(frame.data.as_slice());
            i += 1;
        }
        assert(samples.take(i as int) =~= samples);

        put_box(buf, 'm', 'd', 'a', 't', &payload);
    }
}

/// The first four bytes of a full box: its version and its three flag bytes.
fn full_box_start(version: u8, flags_0: u8, flags_1: u8, flags_2: u8) -> (content: Vec<u8>)
    ensures
        content@ == seq![version, flags_0, flags_1, flags_2],
{
    let mut content = Vec::new();
    content.push(version);
    content.push(flags_0);
    content.push(flags_1);
    content.push(flags_2);
    assert(content@ =~= seq![version, flags_0, flags_1, flags_2]);
    content
}

/// Appends the unity matrix.
fn put_identity_matrix(buf: &mut Vec<u8>)
    ensures
        final(buf)@ == old(buf)@ + identity_matrix(),
{
    let ghost start = buf@;
    let mut matrix = Vec::new();
    put_be32(&mut matrix, 0x0001_0000);
    assert(matrix@ == be32(0x0001_0000));
    put_be32(&mut matrix, 0);
    put_be32(&mut matrix, 0);
    put_be32(&mut matrix, 0);
    put_be32(&mut matrix, 0x0001_0000);
    put_be32(&mut matrix, 0);
    put_be32(&mut matrix, 0);
    put_be32(&mut matrix, 0);
    put_be32(&mut matrix, 0x4000_0000);
    buf.extend_from_slice(matrix.as_slice());
}

/// The composition time offset of a frame: presentation time minus decode
/// time, kept to 32 bits.
fn composition_offset(pts: i64, dts: i64) -> (offset: i32)
    ensures
        offset as int == wrap_i32(pts - dts),
{
    let difference: i128 = pts as i128 - dts as i128;
    let low: i128 = if difference >= 0 {
        difference % 0x1_0000_0000
    } else {
        (difference + 0x1_0000_0000_0000_0000) % 0x1_0000_0000
    };
    if low >= 0x8000_0000 {
        (low - 0x1_0000_0000) as i32
    } else {
        low as i32
    }
}

/// The low 16 bits of a dimension.
fn low16_of_u32(n: u32) -> (r: u16)
    ensures
        r as int == low16(n as int),
{
    (n % 0x1_0000) as u16
}

/// Appends the compressor name field of the sample entry.
fn put_compressor_name(buf: &mut Vec<u8>)
    ensures
        final(buf)@ == old(buf)@ + compressor_name(),
{
    let mut compressor = Vec::new();
    compressor.push(17);
    assert(compressor@ == seq![17u8]);
    proof {
        reveal_strlit("video-toolbox-sys");
    }
    put_ascii(&mut compressor, "video-toolbox-sys");
    put_zeros(&mut compressor, 14);
    buf.extend_from_slice(compressor.as_slice());
}

/// A whole number of pixels as a 16.16 fixed point number; the integer part
/// keeps its low 16 bits.
fn fixed_16_16(pixels: u32) -> (r: u32)
    ensures
        r as int == low32(pixels * 0x1_0000),
{
    ((pixels as u64 * 0x1_0000) % 0x1_0000_0000) as u32
}

} // verus!
