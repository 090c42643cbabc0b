use video_toolbox_sys::cm_sample_buffer::{
    nal_unit_type, BlockBuffer, CMVideoDimensions, FormatDescription, MediaTime,
    NotSyncAttachment, ParameterSetLookup, SampleBuffer,
};
use video_toolbox_sys::helpers::cmaf_muxer::{CmafConfig, CmafMuxer};
use video_toolbox_sys::helpers::nal_extractor::{NalError, NalExtractor, NalUnit};

fn time(value: i64, flags: u32) -> MediaTime {
    MediaTime { value, timescale: 90000, flags, epoch: 0 }
}

fn description(header_length: i32) -> FormatDescription {
    FormatDescription {
        sps: ParameterSetLookup { status: 0, data: vec![0x67, 0x64, 0x00, 0x1f] },
        pps: ParameterSetLookup { status: 0, data: vec![0x68, 0xee] },
        nal_unit_header_length: header_length,
        dimensions: CMVideoDimensions { width: 1280, height: 720 },
    }
}

fn sample(data: Vec<u8>, header_length: i32, not_sync: NotSyncAttachment) -> SampleBuffer {
    SampleBuffer {
        data_buffer: Some(BlockBuffer { data, pointer_status: 0 }),
        format_description: Some(description(header_length)),
        presentation_time: time(6000, 1),
        decode_time: time(3000, 1),
        duration: time(3000, 1),
        not_sync,
    }
}

fn contents(units: &[NalUnit]) -> Vec<(Vec<u8>, u8)> {
    units.iter().map(|unit| (unit.data.clone(), unit.nal_type)).collect()
}

#[test]
fn test_nal_unit_type_checks() {
    let idr = NalUnit { data: vec![0x65, 0x00], nal_type: 5 };
    assert!(idr.is_idr());
    assert!(idr.is_slice());
    assert!(!idr.is_sps());
    assert!(!idr.is_pps());

    let sps = NalUnit { data: vec![0x67, 0x00], nal_type: 7 };
    assert!(!sps.is_idr());
    assert!(!sps.is_slice());
    assert!(sps.is_sps());

    let pps = NalUnit { data: vec![0x68, 0x00], nal_type: 8 };
    assert!(pps.is_pps());
}

#[test]
fn test_annex_b_conversion() {
    let nal = NalUnit { data: vec![0x67, 0x64, 0x00, 0x1f], nal_type: 7 };
    let annex_b = nal.to_annex_b();
    assert_eq!(&annex_b[..4], &[0x00, 0x00, 0x00, 0x01]);
    assert_eq!(&annex_b[4..], &[0x67, 0x64, 0x00, 0x1f]);
}

#[test]
fn test_classification_depends_on_type_only() {
    for nal_type in 0..=255u8 {
        let a = NalUnit { data: vec![0x65, 1, 2], nal_type };
        let b = NalUnit { data: vec![], nal_type };
        assert_eq!(a.is_idr(), b.is_idr());
        assert_eq!(a.is_sps(), b.is_sps());
        assert_eq!(a.is_pps(), b.is_pps());
        assert_eq!(a.is_slice(), b.is_slice());
        assert_eq!(a.is_idr(), nal_type == nal_unit_type::IDR_SLICE);
        assert_eq!(a.is_sps(), nal_type == nal_unit_type::SPS);
        assert_eq!(a.is_pps(), nal_type == nal_unit_type::PPS);
        assert_eq!(a.is_slice(), nal_type == 5 || nal_type == nal_unit_type::NON_IDR_SLICE);
    }
}

#[test]
fn test_annex_b_of_empty_unit() {
    let nal = NalUnit { data: vec![], nal_type: 0 };
    assert_eq!(nal.to_annex_b(), vec![0, 0, 0, 1]);
}

#[test]
fn test_parse_four_byte_lengths() {
    let extractor = NalExtractor::new();
    let data = vec![0, 0, 0, 2, 0x67, 0x64, 0, 0, 0, 1, 0x68, 0, 0, 0, 3, 0x65, 0x88, 0x84];
    let units = extractor.parse_avcc_data(&data, 4).unwrap();
    assert_eq!(
        contents(&units),
        vec![(vec![0x67, 0x64], 7), (vec![0x68], 8), (vec![0x65, 0x88, 0x84], 5)]
    );
}

#[test]
fn test_parse_two_and_one_byte_lengths() {
    let extractor = NalExtractor::new();
    let mut long_unit = vec![0xE1; 0x0102];
    long_unit[0] = 0x41;
    let mut data = vec![0x01, 0x02];
    data.extend_from_slice(&long_unit);
    data.extend_from_slice(&[0x00, 0x01, 0x06]);
    let units = extractor.parse_avcc_data(&data, 2).unwrap();
    assert_eq!(contents(&units), vec![(long_unit, 1), (vec![0x06], 6)]);

    let units = extractor.parse_avcc_data(&[2, 0xFF, 0xEE, 1, 0x09], 1).unwrap();
    assert_eq!(contents(&units), vec![(vec![0xFF, 0xEE], 0x1F), (vec![0x09], 9)]);
}

#[test]
fn test_parse_type_is_low_five_bits() {
    let extractor = NalExtractor::new();
    let units = extractor.parse_avcc_data(&[0, 0, 0, 1, 0xE5], 4).unwrap();
    assert_eq!(units[0].nal_type, 5);
    assert!(units[0].is_idr());
}

#[test]
fn test_parse_length_exceeding_buffer_is_buffer_too_small() {
    let extractor = NalExtractor::new();
    // The length field announces 5 bytes, 4 are left.
    let data = vec![0, 0, 0, 5, 0x65, 1, 2, 3];
    assert_eq!(extractor.parse_avcc_data(&data, 4).unwrap_err(), NalError::BufferTooSmall);
    // A good unit first, then a truncated one: the error is the result.
    let data = vec![0, 0, 0, 1, 0x65, 0, 0, 0, 2, 0x41];
    assert_eq!(extractor.parse_avcc_data(&data, 4).unwrap_err(), NalError::BufferTooSmall);
    let data = vec![0xFF, 0xFF, 0xFF, 0xFF, 0x65];
    assert_eq!(extractor.parse_avcc_data(&data, 4).unwrap_err(), NalError::BufferTooSmall);
    assert_eq!(extractor.parse_avcc_data(&[0], 1).unwrap_err(), NalError::InvalidNalLength);
    assert_eq!(extractor.parse_avcc_data(&[3, 0x65, 1], 1).unwrap_err(), NalError::BufferTooSmall);
}

#[test]
fn test_truncated_access_unit_leaves_muxer_untouched() {
    let extractor = NalExtractor::new();
    let mut muxer = CmafMuxer::new(CmafConfig { fragment_duration_ms: 1000, timescale: 90000 });
    muxer.create_init_segment(&[0x67, 0x64, 0x00, 0x1f], &[0x68], 1280, 720);
    let good = extractor.parse_avcc_data(&[0, 0, 0, 2, 0x65, 0x01], 4).unwrap();
    assert!(muxer.add_frame(&good, 0, 0, 3000, true).is_none());

    let truncated = sample(vec![0, 0, 0, 9, 0x41, 0x02], 4, NotSyncAttachment::Absent);
    assert_eq!(extractor.extract_nal_units(&truncated).unwrap_err(), NalError::BufferTooSmall);
    assert_eq!(muxer.pending_frame_count(), 1);
    assert_eq!(muxer.sequence_number(), 1);
    assert!(muxer.is_initialized());

    // The next good frame goes through as if nothing had happened.
    let next = extractor.parse_avcc_data(&[0, 0, 0, 1, 0x41], 4).unwrap();
    assert!(muxer.add_frame(&next, 3000, 3000, 3000, false).is_none());
    let segment = muxer.flush().unwrap();
    assert_eq!(&segment[segment.len() - 11..], &[0, 0, 0, 2, 0x65, 0x01, 0, 0, 0, 1, 0x41]);
}

#[test]
fn test_parse_invalid_length_width() {
    let extractor = NalExtractor::new();
    let data = vec![0, 0, 0, 1, 0x65];
    assert_eq!(extractor.parse_avcc_data(&data, 3).unwrap_err(), NalError::InvalidNalLength);
    assert_eq!(extractor.parse_avcc_data(&data, 0).unwrap_err(), NalError::InvalidNalLength);
    assert_eq!(extractor.parse_avcc_data(&data, 5).unwrap_err(), NalError::InvalidNalLength);
    // A width that does not fit into the data at all ends the parse at once.
    assert!(extractor.parse_avcc_data(&data, 6).unwrap().is_empty());
    assert!(extractor.parse_avcc_data(&data, usize::MAX).unwrap().is_empty());
    // With no data, a width of 0 still "fits".
    assert_eq!(extractor.parse_avcc_data(&[], 0).unwrap_err(), NalError::InvalidNalLength);
    assert!(extractor.parse_avcc_data(&[], 4).unwrap().is_empty());
}

#[test]
fn test_parse_zero_length_unit_is_invalid() {
    let extractor = NalExtractor::new();
    assert_eq!(
        extractor.parse_avcc_data(&[0, 0, 0, 0], 4).unwrap_err(),
        NalError::InvalidNalLength
    );
    assert_eq!(
        extractor.parse_avcc_data(&[0, 0, 0, 1, 0x65, 0, 0, 0, 0, 9], 4).unwrap_err(),
        NalError::InvalidNalLength
    );
}

#[test]
fn test_parse_ignores_trailing_bytes_shorter_than_a_length_field() {
    let extractor = NalExtractor::new();
    let units = extractor.parse_avcc_data(&[0, 0, 0, 1, 0x65, 0xAA, 0xBB, 0xCC], 4).unwrap();
    assert_eq!(contents(&units), vec![(vec![0x65], 5)]);
    assert!(extractor.parse_avcc_data(&[0, 0, 0], 4).unwrap().is_empty());
}

#[test]
fn test_extract_nal_units_from_sample_buffer() {
    let extractor = NalExtractor::default();
    let buffer = sample(vec![0, 0, 0, 2, 0x65, 0x11], 4, NotSyncAttachment::Absent);
    let units = extractor.extract_nal_units(&buffer).unwrap();
    assert_eq!(contents(&units), vec![(vec![0x65, 0x11], 5)]);

    // The width comes from the format description.
    let buffer = sample(vec![0, 2, 0x65, 0x11], 2, NotSyncAttachment::Absent);
    let units = extractor.extract_nal_units(&buffer).unwrap();
    assert_eq!(contents(&units), vec![(vec![0x65, 0x11], 5)]);

    // Without a format description the width is 4.
    let mut buffer = sample(vec![0, 0, 0, 1, 0x41], 2, NotSyncAttachment::Absent);
    buffer.format_description = None;
    let units = extractor.extract_nal_units(&buffer).unwrap();
    assert_eq!(contents(&units), vec![(vec![0x41], 1)]);
}

#[test]
fn test_extract_nal_units_errors() {
    let extractor = NalExtractor::new();
    let mut buffer = sample(vec![0, 0, 0, 1, 0x65], 4, NotSyncAttachment::Absent);
    buffer.data_buffer = None;
    assert_eq!(extractor.extract_nal_units(&buffer).unwrap_err(), NalError::NoDataBuffer);

    let mut buffer = sample(vec![0, 0, 0, 1, 0x65], 4, NotSyncAttachment::Absent);
    buffer.data_buffer = Some(BlockBuffer { data: vec![0, 0, 0, 1, 0x65], pointer_status: -12700 });
    assert_eq!(
        extractor.extract_nal_units(&buffer).unwrap_err(),
        NalError::DataPointerFailed(-12700)
    );

    // An empty buffer is no error, whatever the pointer status would be.
    let mut buffer = sample(vec![], 4, NotSyncAttachment::Absent);
    buffer.data_buffer = Some(BlockBuffer { data: vec![], pointer_status: -1 });
    assert!(extractor.extract_nal_units(&buffer).unwrap().is_empty());

    let buffer = sample(vec![0, 0, 0, 1, 0x65], 3, NotSyncAttachment::Absent);
    assert_eq!(extractor.extract_nal_units(&buffer).unwrap_err(), NalError::InvalidNalLength);

    let buffer = sample(vec![0, 0, 0, 1, 0x65], -1, NotSyncAttachment::Absent);
    assert!(extractor.extract_nal_units(&buffer).unwrap().is_empty());

    let buffer = sample(vec![0, 0, 0, 7, 0x65], 4, NotSyncAttachment::Absent);
    assert_eq!(extractor.extract_nal_units(&buffer).unwrap_err(), NalError::BufferTooSmall);
}

#[test]
fn test_extract_parameter_sets() {
    let extractor = NalExtractor::new();
    let found = description(4);
    let sets = extractor.extract_parameter_sets(Some(&found)).unwrap();
    assert_eq!(sets.sps, vec![0x67, 0x64, 0x00, 0x1f]);
    assert_eq!(sets.pps, vec![0x68, 0xee]);
    assert_eq!(sets.nal_length_size, 4);

    assert_eq!(
        extractor.extract_parameter_sets(None).unwrap_err(),
        NalError::NoFormatDescription
    );

    let mut no_sps = description(4);
    no_sps.sps.status = -12710;
    no_sps.pps.status = -12711;
    assert_eq!(
        extractor.extract_parameter_sets(Some(&no_sps)).unwrap_err(),
        NalError::ParameterSetFailed(-12710)
    );

    let mut no_pps = description(2);
    no_pps.pps.status = -12711;
    assert_eq!(
        extractor.extract_parameter_sets(Some(&no_pps)).unwrap_err(),
        NalError::ParameterSetFailed(-12711)
    );
}

#[test]
fn test_get_dimensions() {
    let extractor = NalExtractor::new();
    let found = description(4);
    let dims = extractor.get_dimensions(Some(&found)).unwrap();
    assert_eq!((dims.width, dims.height), (1280, 720));
    assert_eq!(extractor.get_dimensions(None).unwrap_err(), NalError::NoFormatDescription);

    let mut negative = description(4);
    negative.dimensions = CMVideoDimensions { width: -1, height: i32::MIN };
    let dims = extractor.get_dimensions(Some(&negative)).unwrap();
    assert_eq!((dims.width, dims.height), (u32::MAX, 0x8000_0000));
}

#[test]
fn test_get_timing_falls_back_to_presentation_time() {
    let extractor = NalExtractor::new();
    let buffer = sample(vec![], 4, NotSyncAttachment::Absent);
    let timing = extractor.get_timing(&buffer);
    assert_eq!((timing.pts, timing.dts, timing.duration, timing.timescale), (6000, 3000, 3000, 90000));

    let mut invalid = sample(vec![], 4, NotSyncAttachment::Absent);
    invalid.decode_time = MediaTime { value: 77, timescale: 1, flags: 0, epoch: 0 };
    let timing = extractor.get_timing(&invalid);
    assert_eq!((timing.pts, timing.dts), (6000, 6000));

    // Only the lowest flag bit counts.
    invalid.decode_time.flags = 0b1110;
    assert_eq!(extractor.get_timing(&invalid).dts, 6000);
    invalid.decode_time.flags = 0b0011;
    assert_eq!(extractor.get_timing(&invalid).dts, 77);
}

#[test]
fn test_is_keyframe_from_attachment() {
    let extractor = NalExtractor::new();
    let inter = vec![0, 0, 0, 1, 0x41];
    let idr = vec![0, 0, 0, 1, 0x65];
    assert!(extractor.is_keyframe(&sample(inter.clone(), 4, NotSyncAttachment::Absent)));
    assert!(extractor.is_keyframe(&sample(
        inter.clone(),
        4,
        NotSyncAttachment::Present { is_false: true }
    )));
    assert!(!extractor.is_keyframe(&sample(
        idr.clone(),
        4,
        NotSyncAttachment::Present { is_false: false }
    )));
}

#[test]
fn test_is_keyframe_falls_back_to_nal_units() {
    let extractor = NalExtractor::new();
    let with_idr = vec![0, 0, 0, 1, 0x41, 0, 0, 0, 2, 0x65, 0x01];
    assert!(extractor.is_keyframe(&sample(with_idr, 4, NotSyncAttachment::NoAttachments)));
    let without = vec![0, 0, 0, 1, 0x41, 0, 0, 0, 1, 0x67];
    assert!(!extractor.is_keyframe(&sample(without, 4, NotSyncAttachment::NoAttachments)));
    // Data that does not parse is no keyframe.
    let broken = vec![0, 0, 0, 1, 0x65, 0, 0, 0, 9, 0x65];
    assert!(!extractor.is_keyframe(&sample(broken, 4, NotSyncAttachment::NoAttachments)));
    let mut empty = sample(vec![], 4, NotSyncAttachment::NoAttachments);
    assert!(!extractor.is_keyframe(&empty));
    empty.data_buffer = None;
    assert!(!extractor.is_keyframe(&empty));
}

#[test]
fn test_get_format_description() {
    let extractor = NalExtractor::new();
    let mut buffer = sample(vec![], 2, NotSyncAttachment::Absent);
    let found = extractor.get_format_description(&buffer).unwrap();
    assert_eq!(found.nal_unit_header_length, 2);
    assert_eq!(found.sps.data, vec![0x67, 0x64, 0x00, 0x1f]);
    buffer.format_description = None;
    assert!(extractor.get_format_description(&buffer).is_none());
}

#[test]
fn test_muxer_payload_parses_back_into_slices() {
    let extractor = NalExtractor::new();
    let muxer = CmafMuxer::new(CmafConfig::default());
    let access_unit = vec![
        0, 0, 0, 2, 0x09, 0xF0, // access unit delimiter
        0, 0, 0, 3, 0x67, 0x64, 0x00, // sequence parameter set
        0, 0, 0, 2, 0x68, 0xEE, // picture parameter set
        0, 0, 0, 4, 0x65, 0x88, 0x84, 0x00, // IDR slice
        0, 0, 0, 2, 0x41, 0x9A, // non-IDR slice
    ];
    let units = extractor.parse_avcc_data(&access_unit, 4).unwrap();
    assert_eq!(units.len(), 5);
    let payload = muxer.nal_units_to_avcc(&units);
    assert_eq!(payload, vec![0, 0, 0, 4, 0x65, 0x88, 0x84, 0x00, 0, 0, 0, 2, 0x41, 0x9A]);
    let slices = extractor.parse_avcc_data(&payload, 4).unwrap();
    assert_eq!(
        contents(&slices),
        vec![(vec![0x65, 0x88, 0x84, 0x00], 5), (vec![0x41, 0x9A], 1)]
    );
}

#[test]
fn test_parse_large_unit_with_four_byte_length() {
    let extractor = NalExtractor::new();
    let mut unit = vec![0x5A; 70_000];
    unit[0] = 0x25;
    let mut data = vec![0x00, 0x01, 0x11, 0x70];
    data.extend_from_slice(&unit);
    let units = extractor.parse_avcc_data(&data, 4).unwrap();
    assert_eq!(units.len(), 1);
    assert_eq!(units[0].nal_type, 5);
    assert_eq!(units[0].data, unit);
    // One byte short of the announced length.
    data.pop();
    assert_eq!(extractor.parse_avcc_data(&data, 4).unwrap_err(), NalError::BufferTooSmall);
}
