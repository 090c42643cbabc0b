use video_toolbox_sys::helpers::cmaf_muxer::{CmafConfig, CmafMuxer, SampleFlags};
use video_toolbox_sys::helpers::nal_extractor::NalUnit;

/// One box found while walking a buffer: type, offset of its first byte,
/// offset of its payload, offset one past its end.
struct BoxSpan {
    kind: [u8; 4],
    start: usize,
    payload: usize,
    end: usize,
}

/// Walks the boxes in `bytes[from..to]`; panics where the declared sizes do
/// not tile the range exactly.
fn walk(bytes: &[u8], from: usize, to: usize) -> Vec<BoxSpan> {
    let mut found = Vec::new();
    let mut at = from;
    while at < to {
        assert!(at + 8 <= to, "box header crosses the end of its parent");
        let size = u32::from_be_bytes([bytes[at], bytes[at + 1], bytes[at + 2], bytes[at + 3]])
            as usize;
        assert!(size >= 8, "box smaller than its header");
        assert!(at + size <= to, "box crosses the end of its parent");
        let kind = [bytes[at + 4], bytes[at + 5], bytes[at + 6], bytes[at + 7]];
        found.push(BoxSpan { kind, start: at, payload: at + 8, end: at + size });
        at += size;
    }
    assert_eq!(at, to);
    found
}

fn kinds(boxes: &[BoxSpan]) -> Vec<String> {
    boxes.iter().map(|b| String::from_utf8_lossy(&b.kind).into_owned()).collect()
}

fn be32_at(bytes: &[u8], at: usize) -> u32 {
    u32::from_be_bytes([bytes[at], bytes[at + 1], bytes[at + 2], bytes[at + 3]])
}

fn be64_at(bytes: &[u8], at: usize) -> u64 {
    let mut field = [0u8; 8];
    field.copy_from_slice(&bytes[at..at + 8]);
    u64::from_be_bytes(field)
}

fn slice_unit(first_byte: u8, fill: u8, len: usize) -> NalUnit {
    let mut data = vec![fill; len];
    data[0] = first_byte;
    NalUnit { data, nal_type: first_byte & 0x1F }
}

fn initialized(fragment_duration_ms: u32, timescale: u32) -> CmafMuxer {
    let mut muxer = CmafMuxer::new(CmafConfig { fragment_duration_ms, timescale });
    let sps = vec![0x67, 0x64, 0x00, 0x1f, 0xac, 0xd9, 0x40, 0x50];
    let pps = vec![0x68, 0xee, 0x3c, 0x80];
    muxer.create_init_segment(&sps, &pps, 1280, 720);
    muxer
}

/// What a media segment holds, read back from its bytes.
struct Fragment {
    sequence_number: u32,
    base_dts: u64,
    data_offset: u32,
    moof_start: usize,
    mdat_payload: usize,
    durations: Vec<u32>,
    sizes: Vec<u32>,
    flags: Vec<u32>,
    offsets: Vec<i32>,
    payload: Vec<u8>,
}

fn read_fragment(bytes: &[u8]) -> Fragment {
    let top = walk(bytes, 0, bytes.len());
    assert_eq!(kinds(&top), vec!["styp", "moof", "mdat"]);
    let moof = walk(bytes, top[1].payload, top[1].end);
    assert_eq!(kinds(&moof), vec!["mfhd", "traf"]);
    let traf = walk(bytes, moof[1].payload, moof[1].end);
    assert_eq!(kinds(&traf), vec!["tfhd", "tfdt", "trun"]);

    let mfhd = &moof[0];
    assert_eq!(&bytes[mfhd.payload..mfhd.payload + 4], &[0, 0, 0, 0]);
    let sequence_number = be32_at(bytes, mfhd.payload + 4);

    let tfhd = &traf[0];
    assert_eq!(&bytes[tfhd.payload..tfhd.payload + 4], &[0, 0x02, 0x00, 0x00]);
    assert_eq!(be32_at(bytes, tfhd.payload + 4), 1);

    let tfdt = &traf[1];
    assert_eq!(&bytes[tfdt.payload..tfdt.payload + 4], &[1, 0, 0, 0]);
    let base_dts = be64_at(bytes, tfdt.payload + 4);
    assert_eq!(tfdt.end, tfdt.payload + 12);

    let trun = &traf[2];
    assert_eq!(&bytes[trun.payload..trun.payload + 4], &[0, 0x00, 0x0F, 0x01]);
    let count = be32_at(bytes, trun.payload + 4) as usize;
    let data_offset = be32_at(bytes, trun.payload + 8);
    assert_eq!(trun.end, trun.payload + 12 + 16 * count);
    let mut durations = Vec::new();
    let mut sizes = Vec::new();
    let mut flags = Vec::new();
    let mut offsets = Vec::new();
    for i in 0..count {
        let entry = trun.payload + 12 + 16 * i;
        durations.push(be32_at(bytes, entry));
        sizes.push(be32_at(bytes, entry + 4));
        flags.push(be32_at(bytes, entry + 8));
        offsets.push(be32_at(bytes, entry + 12) as i32);
    }
    Fragment {
        sequence_number,
        base_dts,
        data_offset,
        moof_start: top[1].start,
        mdat_payload: top[2].payload,
        durations,
        sizes,
        flags,
        offsets,
        payload: bytes[top[2].payload..top[2].end].to_vec(),
    }
}

#[test]
fn test_default_config() {
    let config = CmafConfig::default();
    assert_eq!(config.fragment_duration_ms, 2000);
    assert_eq!(config.timescale, 90000);
}

#[test]
fn test_muxer_initialization() {
    let mut muxer = CmafMuxer::new(CmafConfig::default());
    assert!(!muxer.is_initialized());

    let sps = vec![0x67, 0x64, 0x00, 0x1f, 0xac, 0xd9, 0x40, 0x50];
    let pps = vec![0x68, 0xee, 0x3c, 0x80];

    let init = muxer.create_init_segment(&sps, &pps, 1920, 1080);
    assert!(muxer.is_initialized());
    assert!(!init.is_empty());

    // Check ftyp box
    assert_eq!(&init[4..8], b"ftyp");
    // Check moov box exists
    assert!(init.windows(4).any(|w| w == b"moov"));
}

#[test]
fn test_ftyp_box() {
    let muxer = CmafMuxer::new(CmafConfig::default());
    let mut buf = Vec::new();
    muxer.write_ftyp(&mut buf);

    // Verify structure
    let size = u32::from_be_bytes([buf[0], buf[1], buf[2], buf[3]]);
    assert_eq!(&buf[4..8], b"ftyp");
    assert_eq!(size as usize, buf.len());
}

#[test]
fn test_new_muxer_state() {
    let muxer = CmafMuxer::new(CmafConfig { fragment_duration_ms: 500, timescale: 1000 });
    assert!(!muxer.is_initialized());
    assert_eq!(muxer.sequence_number(), 1);
    assert_eq!(muxer.pending_frame_count(), 0);
}

#[test]
fn test_ftyp_bytes_exact() {
    let muxer = CmafMuxer::new(CmafConfig::default());
    let mut buf = vec![0xAA];
    muxer.write_ftyp(&mut buf);
    let mut expected = vec![0xAA, 0, 0, 0, 40];
    expected.extend_from_slice(b"ftypisom");
    expected.extend_from_slice(&[0, 0, 0, 0]);
    expected.extend_from_slice(b"isomiso6cmfccmfvavc1mp41");
    assert_eq!(buf, expected);
}

#[test]
fn test_styp_bytes_exact() {
    let muxer = CmafMuxer::new(CmafConfig::default());
    let mut buf = Vec::new();
    muxer.write_styp(&mut buf);
    let mut expected = vec![0, 0, 0, 32];
    expected.extend_from_slice(b"stypcmfv");
    expected.extend_from_slice(&[0, 0, 0, 0]);
    expected.extend_from_slice(b"msdhmsixcmfccmfv");
    assert_eq!(buf, expected);
}

#[test]
fn test_init_segment_box_tree() {
    let mut muxer = CmafMuxer::new(CmafConfig { fragment_duration_ms: 1000, timescale: 90000 });
    let sps = vec![0x67, 0x64, 0x00, 0x1f, 0xac, 0xd9, 0x40, 0x50];
    let pps = vec![0x68, 0xee, 0x3c, 0x80];
    let init = muxer.create_init_segment(&sps, &pps, 1280, 720);

    let top = walk(&init, 0, init.len());
    assert_eq!(kinds(&top), vec!["ftyp", "moov"]);
    assert_eq!(top[0].end, 40);
    assert_eq!(top[1].end, init.len());

    let moov = walk(&init, top[1].payload, top[1].end);
    assert_eq!(kinds(&moov), vec!["mvhd", "trak", "mvex"]);
    let trak = walk(&init, moov[1].payload, moov[1].end);
    assert_eq!(kinds(&trak), vec!["tkhd", "mdia"]);
    let mdia = walk(&init, trak[1].payload, trak[1].end);
    assert_eq!(kinds(&mdia), vec!["mdhd", "hdlr", "minf"]);
    let minf = walk(&init, mdia[2].payload, mdia[2].end);
    assert_eq!(kinds(&minf), vec!["vmhd", "dinf", "stbl"]);
    let dinf = walk(&init, minf[1].payload, minf[1].end);
    assert_eq!(kinds(&dinf), vec!["dref"]);
    let dref = walk(&init, dinf[0].payload + 8, dinf[0].end);
    assert_eq!(kinds(&dref), vec!["url "]);
    let stbl = walk(&init, minf[2].payload, minf[2].end);
    assert_eq!(kinds(&stbl), vec!["stsd", "stts", "stsc", "stsz", "stco"]);
    let stsd = walk(&init, stbl[0].payload + 8, stbl[0].end);
    assert_eq!(kinds(&stsd), vec!["avc1"]);
    let avc1 = walk(&init, stsd[0].payload + 78, stsd[0].end);
    assert_eq!(kinds(&avc1), vec!["avcC"]);
    let mvex = walk(&init, moov[2].payload, moov[2].end);
    assert_eq!(kinds(&mvex), vec!["trex"]);

    // mvhd: timescale, rate, volume, next track id
    let mvhd = &moov[0];
    assert_eq!(mvhd.end - mvhd.start, 108);
    assert_eq!(be32_at(&init, mvhd.payload + 12), 90000);
    assert_eq!(be32_at(&init, mvhd.payload + 16), 0);
    assert_eq!(be32_at(&init, mvhd.payload + 20), 0x0001_0000);
    assert_eq!(&init[mvhd.payload + 24..mvhd.payload + 26], &[0x01, 0x00]);
    assert_eq!(be32_at(&init, mvhd.payload + 36), 0x0001_0000);
    assert_eq!(be32_at(&init, mvhd.payload + 52), 0x0001_0000);
    assert_eq!(be32_at(&init, mvhd.payload + 68), 0x4000_0000);
    assert_eq!(be32_at(&init, mvhd.end - 4), 2);

    // tkhd: flags 3, track 1, size as 16.16 fixed point
    let tkhd = &trak[0];
    assert_eq!(tkhd.end - tkhd.start, 92);
    assert_eq!(&init[tkhd.payload..tkhd.payload + 4], &[0, 0, 0, 3]);
    assert_eq!(be32_at(&init, tkhd.payload + 12), 1);
    assert_eq!(be32_at(&init, tkhd.end - 8), 1280 << 16);
    assert_eq!(be32_at(&init, tkhd.end - 4), 720 << 16);

    // mdhd: timescale, language
    let mdhd = &mdia[0];
    assert_eq!(mdhd.end - mdhd.start, 32);
    assert_eq!(be32_at(&init, mdhd.payload + 12), 90000);
    assert_eq!(&init[mdhd.payload + 20..mdhd.payload + 22], &[0x55, 0xc4]);

    // hdlr: handler type and name
    let hdlr = &mdia[1];
    assert_eq!(&init[hdlr.payload + 8..hdlr.payload + 12], b"vide");
    assert_eq!(&init[hdlr.payload + 24..hdlr.end], b"VideoHandler\0");

    // vmhd and url flags
    assert_eq!(&init[minf[0].payload..minf[0].end], &[0, 0, 0, 1, 0, 0, 0, 0, 0, 0, 0, 0]);
    assert_eq!(be32_at(&init, dinf[0].payload + 4), 1);
    assert_eq!(&init[dref[0].payload..dref[0].end], &[0, 0, 0, 1]);

    // avc1: dimensions, resolution, compressor name, depth
    let entry = stsd[0].payload;
    assert_eq!(&init[entry + 6..entry + 8], &[0, 1]);
    assert_eq!(&init[entry + 24..entry + 26], &[0x05, 0x00]);
    assert_eq!(&init[entry + 26..entry + 28], &[0x02, 0xd0]);
    assert_eq!(be32_at(&init, entry + 28), 0x0048_0000);
    assert_eq!(be32_at(&init, entry + 32), 0x0048_0000);
    assert_eq!(&init[entry + 40..entry + 42], &[0, 1]);
    assert_eq!(init[entry + 42], 17);
    assert_eq!(&init[entry + 43..entry + 60], b"video-toolbox-sys");
    assert_eq!(&init[entry + 60..entry + 74], &[0u8; 14]);
    assert_eq!(&init[entry + 74..entry + 78], &[0x00, 0x18, 0xFF, 0xFF]);

    // avcC: version, profile bytes of the sps, both parameter sets
    let avcc = &init[avc1[0].payload..avc1[0].end];
    let mut expected = vec![1, 0x64, 0x00, 0x1f, 0xFF, 0xE1, 0, 8];
    expected.extend_from_slice(&sps);
    expected.extend_from_slice(&[1, 0, 4]);
    expected.extend_from_slice(&pps);
    assert_eq!(avcc, &expected[..]);

    // the empty tables
    assert_eq!(&init[stbl[1].payload..stbl[1].end], &[0u8; 8]);
    assert_eq!(&init[stbl[2].payload..stbl[2].end], &[0u8; 8]);
    assert_eq!(&init[stbl[3].payload..stbl[3].end], &[0u8; 12]);
    assert_eq!(&init[stbl[4].payload..stbl[4].end], &[0u8; 8]);

    // trex: track 1, sample description 1, default flags zero
    let trex = &init[mvex[0].payload..mvex[0].end];
    assert_eq!(trex, &[0, 0, 0, 0, 0, 0, 0, 1, 0, 0, 0, 1, 0, 0, 0, 0, 0, 0, 0, 0, 0, 0, 0, 0]);

    // exactly one moov type in the whole buffer
    assert_eq!(init.windows(4).filter(|w| w == b"moov").count(), 1);
}

#[test]
fn test_init_segment_short_sps_uses_default_profile() {
    let mut muxer = CmafMuxer::new(CmafConfig::default());
    let init = muxer.create_init_segment(&[0x67, 0x42, 0x00], &[0x68], 640, 480);
    let at = init.windows(4).position(|w| w == b"avcC").unwrap() + 4;
    assert_eq!(&init[at..at + 11], &[1, 0x64, 0x00, 0x1f, 0xFF, 0xE1, 0, 3, 0x67, 0x42, 0x00]);
    assert_eq!(&init[at + 11..at + 15], &[1, 0, 1, 0x68]);
    let top = walk(&init, 0, init.len());
    assert_eq!(kinds(&top), vec!["ftyp", "moov"]);
}

#[test]
fn test_init_segment_takes_empty_parameter_sets() {
    let mut muxer = CmafMuxer::new(CmafConfig::default());
    let init = muxer.create_init_segment(&[], &[], 0, 0);
    let top = walk(&init, 0, init.len());
    assert_eq!(kinds(&top), vec!["ftyp", "moov"]);
    let at = init.windows(4).position(|w| w == b"avcC").unwrap() + 4;
    assert_eq!(&init[at - 8..at - 4], &[0, 0, 0, 19]);
    assert_eq!(&init[at..at + 11], &[1, 0x64, 0x00, 0x1f, 0xFF, 0xE1, 0, 0, 1, 0, 0]);
    assert_eq!(&init[at + 15..at + 19], b"stts");
}

#[test]
fn test_add_frame_before_initialization_drops_frame() {
    let mut muxer = CmafMuxer::new(CmafConfig::default());
    let units = vec![slice_unit(0x65, 1, 10)];
    assert!(muxer.add_frame(&units, 0, 0, 3000, true).is_none());
    assert_eq!(muxer.pending_frame_count(), 0);
    assert_eq!(muxer.sequence_number(), 1);
    assert!(muxer.flush().is_none());
    assert!(!muxer.is_initialized());
}

#[test]
fn test_flush_without_frames_returns_none() {
    let mut muxer = initialized(1000, 90000);
    assert!(muxer.flush().is_none());
    assert_eq!(muxer.sequence_number(), 1);
}

#[test]
fn test_first_sample_never_flushes() {
    // Even a keyframe far past the target duration only opens the fragment.
    let mut muxer = initialized(0, 90000);
    let units = vec![slice_unit(0x65, 1, 10)];
    assert!(muxer.add_frame(&units, 1 << 40, 1 << 40, 3000, true).is_none());
    assert_eq!(muxer.pending_frame_count(), 1);
    assert_eq!(muxer.sequence_number(), 1);
}

#[test]
fn test_non_keyframe_never_flushes() {
    let mut muxer = initialized(1000, 90000);
    let key = vec![slice_unit(0x65, 1, 10)];
    let inter = vec![slice_unit(0x41, 2, 10)];
    assert!(muxer.add_frame(&key, 0, 0, 3000, true).is_none());
    assert!(muxer.add_frame(&inter, 900_000, 900_000, 3000, false).is_none());
    assert_eq!(muxer.pending_frame_count(), 2);
}

#[test]
fn test_keyframe_flushes_exactly_at_threshold() {
    // 1000 ms at 90 kHz is 90000 ticks; 89999 ticks are 999 ms.
    let key = vec![slice_unit(0x65, 1, 10)];
    let mut early = initialized(1000, 90000);
    assert!(early.add_frame(&key, 0, 0, 3000, true).is_none());
    assert!(early.add_frame(&key, 89_999, 89_999, 3000, true).is_none());
    assert_eq!(early.pending_frame_count(), 2);

    let mut on_time = initialized(1000, 90000);
    assert!(on_time.add_frame(&key, 0, 0, 3000, true).is_none());
    let segment = on_time.add_frame(&key, 90_000, 90_000, 3000, true);
    assert!(segment.is_some());
    assert_eq!(on_time.pending_frame_count(), 1);
    assert_eq!(on_time.sequence_number(), 2);
}

#[test]
fn test_elapsed_time_rounds_towards_zero() {
    // A keyframe that lies before the fragment's first sample: -1 tick is
    // 0 ms when rounded towards zero, which reaches a target of 0 ms.
    let key = vec![slice_unit(0x65, 1, 10)];
    let mut muxer = initialized(0, 90000);
    assert!(muxer.add_frame(&key, 100, 100, 3000, true).is_none());
    assert!(muxer.add_frame(&key, 99, 99, 3000, true).is_some());
    // -90000 ticks are -1000 ms, below the target.
    let mut muxer = initialized(0, 90000);
    assert!(muxer.add_frame(&key, 90_000, 90_000, 3000, true).is_none());
    assert!(muxer.add_frame(&key, 0, 0, 3000, true).is_none());
}

#[test]
fn test_elapsed_time_does_not_overflow() {
    let key = vec![slice_unit(0x65, 1, 10)];
    let mut muxer = initialized(1000, 1);
    assert!(muxer.add_frame(&key, i64::MIN, i64::MIN, 1, true).is_none());
    let segment = muxer.add_frame(&key, i64::MAX, i64::MAX, 1, true).unwrap();
    let fragment = read_fragment(&segment);
    assert_eq!(fragment.base_dts, i64::MIN as u64);
}

#[test]
fn test_media_segment_layout() {
    let mut muxer = initialized(1000, 90000);
    let first = vec![
        NalUnit { data: vec![0x67, 1, 2], nal_type: 7 },
        NalUnit { data: vec![0x68, 3], nal_type: 8 },
        NalUnit { data: vec![0x65, 0xAA, 0xBB], nal_type: 5 },
        NalUnit { data: vec![0x06, 9], nal_type: 6 },
    ];
    let second =
        vec![NalUnit { data: vec![0x41, 0xCC], nal_type: 1 }, slice_unit(0x41, 0xDD, 5)];
    assert!(muxer.add_frame(&first, 3000, 0, 3000, true).is_none());
    assert!(muxer.add_frame(&second, 2999, 3000, 2999, false).is_none());
    assert_eq!(muxer.pending_frame_count(), 2);

    let segment = muxer.flush().unwrap();
    assert_eq!(muxer.pending_frame_count(), 0);
    assert_eq!(muxer.sequence_number(), 2);

    let fragment = read_fragment(&segment);
    assert_eq!(fragment.sequence_number, 1);
    assert_eq!(fragment.base_dts, 0);
    assert_eq!(fragment.durations, vec![3000, 2999]);
    assert_eq!(fragment.sizes, vec![7, 15]);
    assert_eq!(fragment.flags, vec![0x0200_0000, 0x0101_0000]);
    assert_eq!(fragment.offsets, vec![3000, -1]);
    assert_eq!(
        fragment.payload,
        vec![
            0, 0, 0, 3, 0x65, 0xAA, 0xBB, 0, 0, 0, 2, 0x41, 0xCC, 0, 0, 0, 5, 0x41, 0xDD, 0xDD,
            0xDD, 0xDD
        ]
    );
    // The data offset leads from the start of moof to the payload of mdat.
    assert_eq!(fragment.moof_start, 32);
    assert_eq!(fragment.data_offset, 96 + 16 * 2);
    assert_eq!(fragment.moof_start + fragment.data_offset as usize, fragment.mdat_payload);
    assert_eq!(segment.len(), 32 + 88 + 32 + 8 + 22);
}

#[test]
fn test_media_segment_bytes_exact() {
    let mut muxer = initialized(1000, 90000);
    let units = vec![NalUnit { data: vec![0x65, 0x88], nal_type: 5 }];
    assert!(muxer.add_frame(&units, 0x0102_0304_0506, 0x0102_0304_0500, 0x0A0B_0C0D, true)
        .is_none());
    let segment = muxer.flush().unwrap();

    let mut expected: Vec<u8> = Vec::new();
    expected.extend_from_slice(&[0, 0, 0, 32]);
    expected.extend_from_slice(b"stypcmfv");
    expected.extend_from_slice(&[0, 0, 0, 0]);
    expected.extend_from_slice(b"msdhmsixcmfccmfv");
    expected.extend_from_slice(&[0, 0, 0, 104]);
    expected.extend_from_slice(b"moof");
    expected.extend_from_slice(&[0, 0, 0, 16]);
    expected.extend_from_slice(b"mfhd");
    expected.extend_from_slice(&[0, 0, 0, 0, 0, 0, 0, 1]);
    expected.extend_from_slice(&[0, 0, 0, 80]);
    expected.extend_from_slice(b"traf");
    expected.extend_from_slice(&[0, 0, 0, 16]);
    expected.extend_from_slice(b"tfhd");
    expected.extend_from_slice(&[0, 2, 0, 0, 0, 0, 0, 1]);
    expected.extend_from_slice(&[0, 0, 0, 20]);
    expected.extend_from_slice(b"tfdt");
    expected.extend_from_slice(&[1, 0, 0, 0, 0, 0, 1, 2, 3, 4, 5, 0]);
    expected.extend_from_slice(&[0, 0, 0, 36]);
    expected.extend_from_slice(b"trun");
    expected.extend_from_slice(&[0, 0, 0x0F, 1, 0, 0, 0, 1, 0, 0, 0, 112]);
    expected.extend_from_slice(&[0x0A, 0x0B, 0x0C, 0x0D, 0, 0, 0, 6, 2, 0, 0, 0, 0, 0, 0, 6]);
    expected.extend_from_slice(&[0, 0, 0, 14]);
    expected.extend_from_slice(b"mdat");
    expected.extend_from_slice(&[0, 0, 0, 2, 0x65, 0x88]);
    assert_eq!(segment, expected);
}

#[test]
fn test_negative_base_decode_time_is_twos_complement() {
    let mut muxer = initialized(1000, 90000);
    let units = vec![slice_unit(0x65, 1, 4)];
    assert!(muxer.add_frame(&units, -2, -2, 1, true).is_none());
    let fragment = read_fragment(&muxer.flush().unwrap());
    assert_eq!(fragment.base_dts, 0xFFFF_FFFF_FFFF_FFFE);
}

#[test]
fn test_composition_offset_keeps_low_32_bits() {
    let mut muxer = initialized(1000, 90000);
    let units = vec![slice_unit(0x65, 1, 4)];
    assert!(muxer.add_frame(&units, 0x1_0000_0005, 0, 1, true).is_none());
    assert!(muxer.add_frame(&units, 0, 0x8000_0000, 1, false).is_none());
    assert!(muxer.add_frame(&units, i64::MAX, i64::MIN, 1, false).is_none());
    assert!(muxer.add_frame(&units, 10, 17, 1, false).is_none());
    let fragment = read_fragment(&muxer.flush().unwrap());
    assert_eq!(fragment.offsets, vec![5, i32::MIN, -1, -7]);
}

#[test]
fn test_frame_without_slices_is_an_empty_sample() {
    let mut muxer = initialized(1000, 90000);
    let units = vec![NalUnit { data: vec![0x67, 1], nal_type: 7 }];
    assert!(muxer.add_frame(&units, 0, 0, 10, true).is_none());
    assert!(muxer.add_frame(&[], 10, 10, 10, false).is_none());
    let fragment = read_fragment(&muxer.flush().unwrap());
    assert_eq!(fragment.sizes, vec![0, 0]);
    assert!(fragment.payload.is_empty());
    assert_eq!(fragment.moof_start + fragment.data_offset as usize, fragment.mdat_payload);
}

#[test]
fn test_nal_units_to_avcc_filters_and_prefixes() {
    let muxer = CmafMuxer::new(CmafConfig::default());
    let units = vec![
        NalUnit { data: vec![0x09, 0xF0], nal_type: 9 },
        NalUnit { data: vec![0x65, 1, 2, 3], nal_type: 5 },
        NalUnit { data: vec![0x68], nal_type: 8 },
        NalUnit { data: vec![0x41], nal_type: 1 },
    ];
    assert_eq!(muxer.nal_units_to_avcc(&units), vec![0, 0, 0, 4, 0x65, 1, 2, 3, 0, 0, 0, 1, 0x41]);
    assert!(muxer.nal_units_to_avcc(&[]).is_empty());
    // The type tag decides, not the first byte.
    let mislabeled = vec![NalUnit { data: vec![0x65, 7], nal_type: 7 }];
    assert!(muxer.nal_units_to_avcc(&mislabeled).is_empty());
}

#[test]
fn test_sixty_frames_two_fragments() {
    let mut muxer = CmafMuxer::new(CmafConfig { fragment_duration_ms: 1000, timescale: 90000 });
    let sps = vec![0x67, 0x64, 0x00, 0x1f, 0xac, 0xd9, 0x40, 0x50];
    let pps = vec![0x68, 0xee, 0x3c, 0x80];
    let init = muxer.create_init_segment(&sps, &pps, 1280, 720);
    assert_eq!(kinds(&walk(&init, 0, init.len())), vec!["ftyp", "moov"]);

    let mut emitted: Vec<(usize, Vec<u8>)> = Vec::new();
    let mut payloads: Vec<Vec<u8>> = Vec::new();
    for frame in 0..60usize {
        let keyframe = frame == 0 || frame == 30;
        let first_byte = if keyframe { 0x65 } else { 0x41 };
        let units = vec![slice_unit(first_byte, frame as u8, 20 + frame)];
        let mut payload = ((20 + frame) as u32).to_be_bytes().to_vec();
        payload.extend_from_slice(&units[0].data);
        payloads.push(payload);
        let dts = 3000 * frame as i64;
        if let Some(segment) = muxer.add_frame(&units, dts, dts, 3000, keyframe) {
            emitted.push((frame, segment));
        }
    }
    // Exactly one fragment is flushed, when frame 30 arrives.
    assert_eq!(emitted.len(), 1);
    assert_eq!(emitted[0].0, 30);
    assert_eq!(muxer.pending_frame_count(), 30);
    assert_eq!(muxer.sequence_number(), 2);

    let first = read_fragment(&emitted[0].1);
    assert_eq!(first.sequence_number, 1);
    assert_eq!(first.base_dts, 0);
    assert_eq!(first.durations, vec![3000; 30]);
    assert_eq!(first.payload, payloads[..30].concat());
    assert_eq!(first.flags[0], 0x0200_0000);
    assert!(first.flags[1..].iter().all(|f| *f == 0x0101_0000));
    assert_eq!(first.moof_start + first.data_offset as usize, first.mdat_payload);

    // The final flush returns the second fragment with frames 30 to 59.
    let last = muxer.flush().unwrap();
    let second = read_fragment(&last);
    assert_eq!(second.sequence_number, 2);
    assert_eq!(second.base_dts, 90000);
    assert_eq!(second.durations.len(), 30);
    assert_eq!(second.payload, payloads[30..].concat());
    let sizes: Vec<u32> = (30..60).map(|frame| 24 + frame).collect();
    assert_eq!(second.sizes, sizes);
    assert_eq!(second.moof_start + second.data_offset as usize, second.mdat_payload);

    assert!(muxer.flush().is_none());
    assert_eq!(muxer.sequence_number(), 3);
    assert_eq!(muxer.pending_frame_count(), 0);
}

#[test]
fn test_three_keyframe_groups_give_three_fragments() {
    let mut muxer = initialized(2000, 1000);
    let mut fragments = Vec::new();
    // Groups start at 0, 2000 and 4500 ms; each has a keyframe and two inter frames.
    for (group, start) in [0i64, 2000, 4500].iter().enumerate() {
        for position in 0..3i64 {
            let keyframe = position == 0;
            let first_byte = if keyframe { 0x65 } else { 0x41 };
            let units = vec![slice_unit(first_byte, group as u8, 6)];
            let dts = start + 100 * position;
            if let Some(segment) = muxer.add_frame(&units, dts + 40, dts, 100, keyframe) {
                fragments.push(segment);
            }
        }
    }
    if let Some(segment) = muxer.flush() {
        fragments.push(segment);
    }
    assert_eq!(fragments.len(), 3);
    let read: Vec<Fragment> = fragments.iter().map(|bytes| read_fragment(bytes)).collect();
    assert_eq!(read.iter().map(|f| f.sequence_number).collect::<Vec<u32>>(), vec![1, 2, 3]);
    assert_eq!(read.iter().map(|f| f.base_dts).collect::<Vec<u64>>(), vec![0, 2000, 4500]);
    for fragment in &read {
        assert_eq!(fragment.durations.len(), 3);
        assert_eq!(fragment.offsets, vec![40, 40, 40]);
        assert_eq!(fragment.moof_start + fragment.data_offset as usize, fragment.mdat_payload);
    }
}

#[test]
fn test_sample_flags_packing() {
    let sync = SampleFlags::for_sample(true);
    assert_eq!(sync.pack(), 0x0200_0000);
    assert_eq!(sync.depends_on(), 2);
    assert_eq!(sync.leading(), 0);
    assert_eq!(sync.is_depended_on(), 0);
    assert_eq!(sync.has_redundancy(), 0);
    assert!(!sync.non_sync);

    let dependent = SampleFlags::for_sample(false);
    assert_eq!(dependent.pack(), 0x0101_0000);
    assert_eq!(dependent.depends_on(), 1);
    assert!(dependent.non_sync);

    let all = SampleFlags {
        leading: 3,
        depends_on: 3,
        is_depended_on: 3,
        has_redundancy: 3,
        non_sync: true,
    };
    assert_eq!(all.pack(), 0x0FF1_0000);
    let wide = SampleFlags {
        leading: 4,
        depends_on: 5,
        is_depended_on: 6,
        has_redundancy: 7,
        non_sync: false,
    };
    assert_eq!(wide.pack(), 0x01B0_0000);
}
