//! The byte layout of every box that the muxer emits.
//!
//! Each function here is the exact content of one ISO base media box, as a
//! sequence of bytes. The writers in `cmaf_muxer` are specified against these
//! functions, and the structural facts about whole segments are proved from
//! them.

use vstd::prelude::*;
use vstd::string::is_ascii_spec_bytes;
use super::be_bytes::{be16, be32, be64, low16, low32, low64, put_be32, zeros};
use super::cmaf_muxer::Sample;

verus! {

/// The four bytes of a box type or brand.
pub open spec fn fourcc(a: char, b: char, c: char, d: char) -> Seq<u8> {
    seq![a as u8, b as u8, c as u8, d as u8]
}

/// The bytes of an ASCII text.
pub open spec fn ascii_bytes(text: Seq<char>) -> Seq<u8> {
    Seq::new(text.len(), |i: int| text[i] as u8)
}

/// Size of a box header: a 32-bit size and a four-character type.
pub open spec fn header_len() -> int {
    8
}

/// A box: its total size in a 32-bit field, its type, then its payload.
pub open spec fn boxed(kind: Seq<u8>, payload: Seq<u8>) -> Seq<u8> {
    be32(low32(header_len() + payload.len())) + kind + payload
}

/// The type and the payload of a box.
pub struct BoxContent {
    pub kind: Seq<u8>,
    pub payload: Seq<u8>,
}

impl BoxContent {
    /// The bytes of the box.
    pub open spec fn bytes(self) -> Seq<u8> {
        boxed(self.kind, self.payload)
    }

    /// A box whose size field can hold its size.
    pub open spec fn fits(self) -> bool {
        self.kind.len() == 4 && header_len() + self.payload.len() < 0x1_0000_0000
    }
}

/// Appends the four bytes of a box type or brand.
pub fn put_fourcc(buf: &mut Vec<u8>, a: char, b: char, c: char, d: char)
    ensures
        final(buf)@ == old(buf)@ + fourcc(a, b, c, d),
{
    buf.push(#[verifier::truncate] (a as u8));
    buf.push(#[verifier::truncate] (b as u8));
    buf.push(#[verifier::truncate] (c as u8));
    buf.push(#[verifier::truncate] (d as u8));
    assert(buf@ =~= old(buf)@ + fourcc(a, b, c, d));
}

/// Appends the bytes of an ASCII text.
pub(crate) fn put_ascii(buf: &mut Vec<u8>, text: &str)
    requires
        text.is_ascii(),
    ensures
        final(buf)@ == old(buf)@ + ascii_bytes(text@),
{
    broadcast use is_ascii_spec_bytes;

    buf.extend_from_slice(text.as_bytes());
}

/// Appends a box of the given type around `content`. The size field holds
/// the size of the whole box, header included, modulo 2^32.
pub fn put_box(buf: &mut Vec<u8>, a: char, b: char, c: char, d: char, content: &Vec<u8>)
    ensures
        final(buf)@ == old(buf)@ + boxed(fourcc(a, b, c, d), content@),
{
    let size: u32 = ((content.len() as u128 + 8) % 0x1_0000_0000) as u32;
    put_be32(buf, size);
    put_fourcc(buf, a, b, c, d);
    buf.extend_from_slice(content.as_slice());
    assert(buf@ =~= old(buf)@ + boxed(fourcc(a, b, c, d), content@));
}

/// Version 0 and flags 0, the start of most full boxes.
pub open spec fn plain_version_flags() -> Seq<u8> {
    seq![0u8, 0u8, 0u8, 0u8]
}

/// The unity transformation matrix of movie and track headers.
pub open spec fn identity_matrix() -> Seq<u8> {
    be32(0x0001_0000) + be32(0) + be32(0) + be32(0) + be32(0x0001_0000) + be32(0) + be32(0)
        + be32(0) + be32(0x4000_0000)
}

// ========================================
// Initialization segment
// ========================================

/// File type: major brand `isom`, minor version 0, and the compatible
/// brands `isom`, `iso6`, `cmfc`, `cmfv`, `avc1` and `mp41`.
#[verifier::opaque]
pub open spec fn ftyp_payload() -> Seq<u8> {
    fourcc('i', 's', 'o', 'm') + be32(0) + fourcc('i', 's', 'o', 'm') + fourcc('i', 's', 'o', '6')
        + fourcc('c', 'm', 'f', 'c') + fourcc('c', 'm', 'f', 'v') + fourcc('a', 'v', 'c', '1')
        + fourcc('m', 'p', '4', '1')
}

/// The `ftyp` box.
pub open spec fn ftyp() -> BoxContent {
    BoxContent { kind: fourcc('f', 't', 'y', 'p'), payload: ftyp_payload() }
}

/// Movie header: times and duration 0, rate 1.0, volume 1.0, next track 2.
#[verifier::opaque]
pub open spec fn mvhd_payload(timescale: u32) -> Seq<u8> {
    plain_version_flags() + be32(0) + be32(0) + be32(timescale as int) + be32(0) + be32(
        0x0001_0000,
    ) + be16(0x0100) + zeros(2) + zeros(8) + identity_matrix() + zeros(24) + be32(2)
}

/// The `mvhd` box.
pub open spec fn mvhd(timescale: u32) -> BoxContent {
    BoxContent { kind: fourcc('m', 'v', 'h', 'd'), payload: mvhd_payload(timescale) }
}

/// Track header: enabled and in movie, with the picture size as 16.16 fixed
/// point numbers, of which the integer part keeps its low 16 bits.
#[verifier::opaque]
pub open spec fn tkhd_payload(track_id: u32, width: u32, height: u32) -> Seq<u8> {
    seq![0u8, 0u8, 0u8, 3u8] + be32(0) + be32(0) + be32(track_id as int) + be32(0) + be32(0)
        + zeros(8) + be16(0) + be16(0) + be16(0) + be16(0) + identity_matrix() + be32(
        low32(width * 0x1_0000),
    ) + be32(low32(height * 0x1_0000))
}

/// The `tkhd` box.
pub open spec fn tkhd(track_id: u32, width: u32, height: u32) -> BoxContent {
    BoxContent {
        kind: fourcc('t', 'k', 'h', 'd'),
        payload: tkhd_payload(track_id, width, height),
    }
}

/// Media header: times and duration 0, language `und`.
#[verifier::opaque]
pub open spec fn mdhd_payload(timescale: u32) -> Seq<u8> {
    plain_version_flags() + be32(0) + be32(0) + be32(timescale as int) + be32(0) + be16(0x55c4)
        + be16(0)
}

/// The `mdhd` box.
pub open spec fn mdhd(timescale: u32) -> BoxContent {
    BoxContent { kind: fourcc('m', 'd', 'h', 'd'), payload: mdhd_payload(timescale) }
}

/// Handler reference: a video track, named `VideoHandler`.
#[verifier::opaque]
pub open spec fn hdlr_payload() -> Seq<u8> {
    plain_version_flags() + be32(0) + fourcc('v', 'i', 'd', 'e') + zeros(12) + ascii_bytes(
        "VideoHandler\0"@,
    )
}

/// The `hdlr` box.
pub open spec fn hdlr() -> BoxContent {
    BoxContent { kind: fourcc('h', 'd', 'l', 'r'), payload: hdlr_payload() }
}

/// Video media header: flags 1, copy mode, black.
#[verifier::opaque]
pub open spec fn vmhd_payload() -> Seq<u8> {
    seq![0u8, 0u8, 0u8, 1u8] + be16(0) + zeros(6)
}

/// The `vmhd` box.
pub open spec fn vmhd() -> BoxContent {
    BoxContent { kind: fourcc('v', 'm', 'h', 'd'), payload: vmhd_payload() }
}

/// The one entry of the data reference box: flags 1, the media data is in
/// the same file.
#[verifier::opaque]
pub open spec fn url_entry_payload() -> Seq<u8> {
    seq![0u8, 0u8, 0u8, 1u8]
}

/// The `url ` box.
pub open spec fn url_entry() -> BoxContent {
    BoxContent { kind: fourcc('u', 'r', 'l', ' '), payload: url_entry_payload() }
}

/// Data reference: an entry count of 1, then the entry.
#[verifier::opaque]
pub open spec fn dref_payload() -> Seq<u8> {
    plain_version_flags() + be32(1) + url_entry().bytes()
}

/// The `dref` box.
pub open spec fn dref() -> BoxContent {
    BoxContent { kind: fourcc('d', 'r', 'e', 'f'), payload: dref_payload() }
}

/// Data information: the data reference.
#[verifier::opaque]
pub open spec fn dinf_payload() -> Seq<u8> {
    dref().bytes()
}

/// The `dinf` box.
pub open spec fn dinf() -> BoxContent {
    BoxContent { kind: fourcc('d', 'i', 'n', 'f'), payload: dinf_payload() }
}

/// Profile, compatibility and level of the decoder configuration: bytes 1 to
/// 3 of the sequence parameter set, or High profile level 3.1 when it is too
/// short to hold them.
pub open spec fn profile_bytes(sps: Seq<u8>) -> Seq<u8> {
    if sps.len() >= 4 {
        seq![sps[1], sps[2], sps[3]]
    } else {
        seq![0x64u8, 0x00u8, 0x1fu8]
    }
}

/// Decoder configuration: version 1, the profile bytes, 4-byte NAL lengths,
/// one sequence and one picture parameter set, each behind a 16-bit length.
#[verifier::opaque]
pub open spec fn avcc_payload(sps: Seq<u8>, pps: Seq<u8>) -> Seq<u8> {
    seq![1u8] + profile_bytes(sps) + seq![0xFFu8] + seq![0xE1u8] + be16(low16(sps.len() as int))
        + sps + seq![1u8] + be16(low16(pps.len() as int)) + pps
}

/// The `avcC` box.
pub open spec fn avcc(sps: Seq<u8>, pps: Seq<u8>) -> BoxContent {
    BoxContent { kind: fourcc('a', 'v', 'c', 'C'), payload: avcc_payload(sps, pps) }
}

/// The 32-byte compressor name field: a length byte, the name, zero padding.
pub open spec fn compressor_name() -> Seq<u8> {
    seq![17u8] + ascii_bytes("video-toolbox-sys"@) + zeros(14)
}

/// The fields of the visual sample entry in front of the decoder
/// configuration: data reference 1, the picture size kept to 16 bits each,
/// 72 dpi, one frame per sample, the compressor name, depth 24.
#[verifier::opaque]
pub open spec fn avc1_fields(width: u32, height: u32) -> Seq<u8> {
    zeros(6) + be16(1) + be16(0) + be16(0) + zeros(12) + be16(low16(width as int)) + be16(
        low16(height as int),
    ) + be32(0x0048_0000) + be32(0x0048_0000) + be32(0) + be16(1) + compressor_name() + be16(
        0x0018,
    ) + be16(0xFFFF)
}

/// Visual sample entry for H.264: its fields, then the decoder
/// configuration.
#[verifier::opaque]
pub open spec fn avc1_payload(width: u32, height: u32, sps: Seq<u8>, pps: Seq<u8>) -> Seq<u8> {
    avc1_fields(width, height) + avcc(sps, pps).bytes()
}

/// The `avc1` box.
pub open spec fn avc1(width: u32, height: u32, sps: Seq<u8>, pps: Seq<u8>) -> BoxContent {
    BoxContent {
        kind: fourcc('a', 'v', 'c', '1'),
        payload: avc1_payload(width, height, sps, pps),
    }
}

/// Sample description: an entry count of 1, then the H.264 sample entry.
#[verifier::opaque]
pub open spec fn stsd_payload(width: u32, height: u32, sps: Seq<u8>, pps: Seq<u8>) -> Seq<u8> {
    plain_version_flags() + be32(1) + avc1(width, height, sps, pps).bytes()
}

/// The `stsd` box.
pub open spec fn stsd(width: u32, height: u32, sps: Seq<u8>, pps: Seq<u8>) -> BoxContent {
    BoxContent {
        kind: fourcc('s', 't', 's', 'd'),
        payload: stsd_payload(width, height, sps, pps),
    }
}

/// The payload of a sample table box without entries.
#[verifier::opaque]
pub open spec fn empty_table_payload() -> Seq<u8> {
    plain_version_flags() + be32(0)
}

/// Time-to-sample table without entries.
pub open spec fn stts() -> BoxContent {
    BoxContent { kind: fourcc('s', 't', 't', 's'), payload: empty_table_payload() }
}

/// Sample-to-chunk table without entries.
pub open spec fn stsc() -> BoxContent {
    BoxContent { kind: fourcc('s', 't', 's', 'c'), payload: empty_table_payload() }
}

/// Sample size table: no common size, no samples.
#[verifier::opaque]
pub open spec fn stsz_payload() -> Seq<u8> {
    plain_version_flags() + be32(0) + be32(0)
}

/// The `stsz` box.
pub open spec fn stsz() -> BoxContent {
    BoxContent { kind: fourcc('s', 't', 's', 'z'), payload: stsz_payload() }
}

/// Chunk offset table without entries.
pub open spec fn stco() -> BoxContent {
    BoxContent { kind: fourcc('s', 't', 'c', 'o'), payload: empty_table_payload() }
}

/// Sample table: the sample description and four empty tables.
#[verifier::opaque]
pub open spec fn stbl_payload(width: u32, height: u32, sps: Seq<u8>, pps: Seq<u8>) -> Seq<u8> {
    stsd(width, height, sps, pps).bytes() + stts().bytes() + stsc().bytes() + stsz().bytes()
        + stco().bytes()
}

/// The `stbl` box.
pub open spec fn stbl(width: u32, height: u32, sps: Seq<u8>, pps: Seq<u8>) -> BoxContent {
    BoxContent {
        kind: fourcc('s', 't', 'b', 'l'),
        payload: stbl_payload(width, height, sps, pps),
    }
}

/// Media information: video media header, data information, sample table.
#[verifier::opaque]
pub open spec fn minf_payload(width: u32, height: u32, sps: Seq<u8>, pps: Seq<u8>) -> Seq<u8> {
    vmhd().bytes() + dinf().bytes() + stbl(width, height, sps, pps).bytes()
}

/// The `minf` box.
pub open spec fn minf(width: u32, height: u32, sps: Seq<u8>, pps: Seq<u8>) -> BoxContent {
    BoxContent {
        kind: fourcc('m', 'i', 'n', 'f'),
        payload: minf_payload(width, height, sps, pps),
    }
}

/// Media: media header, handler reference, media information.
#[verifier::opaque]
pub open spec fn mdia_payload(
    timescale: u32,
    width: u32,
    height: u32,
    sps: Seq<u8>,
    pps: Seq<u8>,
) -> Seq<u8> {
    mdhd(timescale).bytes() + hdlr().bytes() + minf(width, height, sps, pps).bytes()
}

/// The `mdia` box.
pub open spec fn mdia(
    timescale: u32,
    width: u32,
    height: u32,
    sps: Seq<u8>,
    pps: Seq<u8>,
) -> BoxContent {
    BoxContent {
        kind: fourcc('m', 'd', 'i', 'a'),
        payload: mdia_payload(timescale, width, height, sps, pps),
    }
}

/// The video track: track header, media.
#[verifier::opaque]
pub open spec fn trak_payload(
    track_id: u32,
    timescale: u32,
    width: u32,
    height: u32,
    sps: Seq<u8>,
    pps: Seq<u8>,
) -> Seq<u8> {
    tkhd(track_id, width, height).bytes() + mdia(timescale, width, height, sps, pps).bytes()
}

/// The `trak` box.
pub open spec fn trak(
    track_id: u32,
    timescale: u32,
    width: u32,
    height: u32,
    sps: Seq<u8>,
    pps: Seq<u8>,
) -> BoxContent {
    BoxContent {
        kind: fourcc('t', 'r', 'a', 'k'),
        payload: trak_payload(track_id, timescale, width, height, sps, pps),
    }
}

/// Track extends: sample description 1, all sample defaults zero.
#[verifier::opaque]
pub open spec fn trex_payload(track_id: u32) -> Seq<u8> {
    plain_version_flags() + be32(track_id as int) + be32(1) + be32(0) + be32(0) + be32(0)
}

/// The `trex` box.
pub open spec fn trex(track_id: u32) -> BoxContent {
    BoxContent { kind: fourcc('t', 'r', 'e', 'x'), payload: trex_payload(track_id) }
}

/// Movie extends, which marks the movie as fragmented: the track extends.
#[verifier::opaque]
pub open spec fn mvex_payload(track_id: u32) -> Seq<u8> {
    trex(track_id).bytes()
}

/// The `mvex` box.
pub open spec fn mvex(track_id: u32) -> BoxContent {
    BoxContent { kind: fourcc('m', 'v', 'e', 'x'), payload: mvex_payload(track_id) }
}

/// Movie: movie header, the video track, movie extends.
#[verifier::opaque]
pub open spec fn moov_payload(
    track_id: u32,
    timescale: u32,
    width: u32,
    height: u32,
    sps: Seq<u8>,
    pps: Seq<u8>,
) -> Seq<u8> {
    mvhd(timescale).bytes() + trak(track_id, timescale, width, height, sps, pps).bytes() + mvex(
        track_id,
    ).bytes()
}

/// The `moov` box.
pub open spec fn moov(
    track_id: u32,
    timescale: u32,
    width: u32,
    height: u32,
    sps: Seq<u8>,
    pps: Seq<u8>,
) -> BoxContent {
    BoxContent {
        kind: fourcc('m', 'o', 'o', 'v'),
        payload: moov_payload(track_id, timescale, width, height, sps, pps),
    }
}

/// The initialization segment: file type, then movie.
pub open spec fn init_segment(
    track_id: u32,
    timescale: u32,
    width: u32,
    height: u32,
    sps: Seq<u8>,
    pps: Seq<u8>,
) -> Seq<u8> {
    ftyp().bytes() + moov(track_id, timescale, width, height, sps, pps).bytes()
}

// ========================================
// Media segments
// ========================================

/// Segment type: major brand `cmfv`, minor version 0, and the compatible
/// brands `msdh`, `msix`, `cmfc` and `cmfv`.
#[verifier::opaque]
pub open spec fn styp_payload() -> Seq<u8> {
    fourcc('c', 'm', 'f', 'v') + be32(0) + fourcc('m', 's', 'd', 'h') + fourcc('m', 's', 'i', 'x')
        + fourcc('c', 'm', 'f', 'c') + fourcc('c', 'm', 'f', 'v')
}

/// The `styp` box.
pub open spec fn styp() -> BoxContent {
    BoxContent { kind: fourcc('s', 't', 'y', 'p'), payload: styp_payload() }
}

/// Movie fragment header: the fragment's sequence number.
#[verifier::opaque]
pub open spec fn mfhd_payload(sequence_number: u32) -> Seq<u8> {
    plain_version_flags() + be32(sequence_number as int)
}

/// The `mfhd` box.
pub open spec fn mfhd(sequence_number: u32) -> BoxContent {
    BoxContent { kind: fourcc('m', 'f', 'h', 'd'), payload: mfhd_payload(sequence_number) }
}

/// Track fragment header: the default-base-is-moof flag and the track.
#[verifier::opaque]
pub open spec fn tfhd_payload(track_id: u32) -> Seq<u8> {
    seq![0u8, 0x02u8, 0x00u8, 0x00u8] + be32(track_id as int)
}

/// The `tfhd` box.
pub open spec fn tfhd(track_id: u32) -> BoxContent {
    BoxContent { kind: fourcc('t', 'f', 'h', 'd'), payload: tfhd_payload(track_id) }
}

/// Track fragment decode time, version 1: the base decode time in 64 bits.
#[verifier::opaque]
pub open spec fn tfdt_payload(base_dts: i64) -> Seq<u8> {
    seq![1u8, 0u8, 0u8, 0u8] + be64(low64(base_dts as int))
}

/// The `tfdt` box.
pub open spec fn tfdt(base_dts: i64) -> BoxContent {
    BoxContent { kind: fourcc('t', 'f', 'd', 't'), payload: tfdt_payload(base_dts) }
}

/// The packed flags of one sample: a sync sample depends on no other sample;
/// any other sample depends on an earlier one and is marked as non-sync.
pub open spec fn sample_flags(is_sync: bool) -> int {
    if is_sync {
        0x0200_0000
    } else {
        0x0101_0000
    }
}

/// One entry of the track run: duration, size, flags, composition offset.
pub open spec fn trun_entry(sample: Sample) -> Seq<u8> {
    be32(sample.duration as int) + be32(low32(sample.data.len() as int)) + be32(
        sample_flags(sample.is_sync),
    ) + be32(low32(sample.composition_offset as int))
}

/// The entries of all samples, in order.
pub open spec fn trun_entries(samples: Seq<Sample>) -> Seq<u8>
    decreases samples.len(),
{
    if samples.len() == 0 {
        Seq::empty()
    } else {
        trun_entries(samples.drop_last()) + trun_entry(samples.last())
    }
}

/// Size of the movie fragment box of a fragment with `count` samples:
/// headers of `moof` and `traf`, the boxes `mfhd`, `tfhd` and `tfdt`, and a
/// track run of 20 bytes plus 16 per sample.
pub open spec fn moof_len(count: int) -> int {
    8 + 16 + (8 + 16 + 20 + (20 + 16 * count))
}

/// The data offset of the track run: from the first byte of the movie
/// fragment box to the first byte behind the header of the media data box
/// that follows it.
pub open spec fn data_offset(count: int) -> int {
    moof_len(count) + 8
}

/// Track run: data offset, and duration, size, flags and composition offset
/// of every sample. The count field holds the number of samples modulo 2^32,
/// and the data offset is computed from that count.
#[verifier::opaque]
pub open spec fn trun_payload(samples: Seq<Sample>) -> Seq<u8> {
    seq![0u8, 0x00u8, 0x0Fu8, 0x01u8] + be32(low32(samples.len() as int)) + be32(
        low32(data_offset(low32(samples.len() as int))),
    ) + trun_entries(samples)
}

/// The `trun` box.
pub open spec fn trun(samples: Seq<Sample>) -> BoxContent {
    BoxContent { kind: fourcc('t', 'r', 'u', 'n'), payload: trun_payload(samples) }
}

/// Track fragment: header, decode time, track run.
#[verifier::opaque]
pub open spec fn traf_payload(track_id: u32, base_dts: i64, samples: Seq<Sample>) -> Seq<u8> {
    tfhd(track_id).bytes() + tfdt(base_dts).bytes() + trun(samples).bytes()
}

/// The `traf` box.
pub open spec fn traf(track_id: u32, base_dts: i64, samples: Seq<Sample>) -> BoxContent {
    BoxContent {
        kind: fourcc('t', 'r', 'a', 'f'),
        payload: traf_payload(track_id, base_dts, samples),
    }
}

/// Movie fragment: header and the one track fragment.
#[verifier::opaque]
pub open spec fn moof_payload(
    sequence_number: u32,
    track_id: u32,
    base_dts: i64,
    samples: Seq<Sample>,
) -> Seq<u8> {
    mfhd(sequence_number).bytes() + traf(track_id, base_dts, samples).bytes()
}

/// The `moof` box.
pub open spec fn moof(
    sequence_number: u32,
    track_id: u32,
    base_dts: i64,
    samples: Seq<Sample>,
) -> BoxContent {
    BoxContent {
        kind: fourcc('m', 'o', 'o', 'f'),
        payload: moof_payload(sequence_number, track_id, base_dts, samples),
    }
}

/// The payloads of all samples, in order.
pub open spec fn sample_data(samples: Seq<Sample>) -> Seq<u8>
    decreases samples.len(),
{
    if samples.len() == 0 {
        Seq::empty()
    } else {
        sample_data(samples.drop_last()) + samples.last().data
    }
}

/// The `mdat` box: the payloads of all samples.
pub open spec fn mdat(samples: Seq<Sample>) -> BoxContent {
    BoxContent { kind: fourcc('m', 'd', 'a', 't'), payload: sample_data(samples) }
}

/// A media segment: segment type, movie fragment, media data.
pub open spec fn media_segment(
    sequence_number: u32,
    track_id: u32,
    base_dts: i64,
    samples: Seq<Sample>,
) -> Seq<u8> {
    styp().bytes() + moof(sequence_number, track_id, base_dts, samples).bytes() + mdat(
        samples,
    ).bytes()
}

} // verus!
