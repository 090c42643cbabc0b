//! What a player finds in the segments that the muxer emits.
//!
//! The facts here are about the bytes of whole segments, read back with the
//! walk of `box_tree`: which boxes a segment holds, that their declared sizes
//! tile the segment exactly, and that the data offset of a track run leads to
//! the first byte of the sample data.

use vstd::prelude::*;
use super::be_bytes::{
    be16,
    be32,
    be64,
    be_value,
    lemma_be16_value,
    lemma_be32_value,
    lemma_be64_value,
    low16,
    low32,
    low64,
};
use super::box_tree::{
    box_sequence,
    boxes_between,
    BoxSpan,
    lemma_boxed_len,
    lemma_part_position,
    lemma_payload_position,
    lemma_spans_of_one,
    lemma_spans_of_three,
    lemma_spans_of_two,
    lemma_walk_inside_box,
    lemma_walk_over_sequence,
    spans_from,
    top_level_boxes,
    u32_at,
};
use super::boxes::{
    avc1,
    avc1_fields,
    avc1_payload,
    avcc,
    avcc_payload,
    BoxContent,
    compressor_name,
    data_offset,
    dinf,
    dinf_payload,
    dref,
    dref_payload,
    empty_table_payload,
    fourcc,
    ftyp,
    ftyp_payload,
    hdlr,
    hdlr_payload,
    header_len,
    identity_matrix,
    init_segment,
    mdat,
    mdhd,
    mdhd_payload,
    mdia,
    mdia_payload,
    media_segment,
    mfhd,
    mfhd_payload,
    minf,
    minf_payload,
    moof,
    moof_len,
    moof_payload,
    moov,
    moov_payload,
    mvex,
    mvex_payload,
    mvhd,
    mvhd_payload,
    plain_version_flags,
    profile_bytes,
    sample_data,
    stbl,
    stbl_payload,
    stco,
    stsc,
    stsd,
    stsd_payload,
    stsz,
    stsz_payload,
    stts,
    styp,
    styp_payload,
    tfdt,
    tfdt_payload,
    tfhd,
    tfhd_payload,
    tkhd,
    tkhd_payload,
    traf,
    traf_payload,
    trak,
    trak_payload,
    trex,
    trex_payload,
    trun,
    trun_entries,
    trun_payload,
    url_entry,
    url_entry_payload,
    vmhd,
    vmhd_payload,
};
use super::cmaf_muxer::Sample;

verus! {

/// Whether a buffer is a file type box of 40 bytes followed by one movie
/// box that ends where the buffer ends: the walk over the buffer finds these
/// two boxes and nothing else, and their declared sizes add up to the length
/// of the buffer.
pub open spec fn is_file_type_and_movie(bytes: Seq<u8>) -> bool {
    &&& top_level_boxes(bytes) == Some(
        seq![
            BoxSpan { kind: fourcc('f', 't', 'y', 'p'), start: 0, end: 40 },
            BoxSpan { kind: fourcc('m', 'o', 'o', 'v'), start: 40, end: bytes.len() as int },
        ],
    )
    &&& u32_at(bytes, 0) + u32_at(bytes, 40) == bytes.len()
}

/// Whether the data offset of the track run of a media segment leads to the
/// sample data: counted from the first byte of the movie fragment box, which
/// lies at byte 32, the number in the data offset field, which lies at byte
/// 116, is the position from which on the segment holds the sample data and
/// nothing else.
pub open spec fn data_offset_leads_to(bytes: Seq<u8>, data: Seq<u8>) -> bool {
    &&& 116 + 4 <= 32 + u32_at(bytes, 116) <= bytes.len()
    &&& bytes.subrange(32 + u32_at(bytes, 116), bytes.len() as int) == data
}

/// Payload sizes of the boxes whose layout is fixed.
pub proof fn lemma_fixed_payload_lens(timescale: u32, track_id: u32, width: u32, height: u32)
    ensures
        ftyp().payload.len() == 32,
        styp().payload.len() == 24,
        mvhd(timescale).payload.len() == 100,
        tkhd(track_id, width, height).payload.len() == 84,
        mdhd(timescale).payload.len() == 24,
        hdlr().payload.len() == 37,
        vmhd().payload.len() == 12,
        url_entry().payload.len() == 4,
        dref().payload.len() == 20,
        dinf().payload.len() == 28,
        stts().payload.len() == 8,
        stsc().payload.len() == 8,
        stsz().payload.len() == 12,
        stco().payload.len() == 8,
        trex(track_id).payload.len() == 24,
        mvex(track_id).payload.len() == 32,
        compressor_name().len() == 32,
        avc1_fields(width, height).len() == 78,
{
    reveal_strlit("VideoHandler\0");
    reveal_strlit("video-toolbox-sys");
    reveal(ftyp_payload);
    reveal(styp_payload);
    reveal(mvhd_payload);
    reveal(tkhd_payload);
    reveal(mdhd_payload);
    reveal(hdlr_payload);
    reveal(vmhd_payload);
    reveal(url_entry_payload);
    reveal(empty_table_payload);
    reveal(stsz_payload);
    reveal(trex_payload);
    reveal(avc1_fields);
    reveal(dref_payload);
    reveal(dinf_payload);
    reveal(mvex_payload);
    assert(identity_matrix().len() == 36);
}

/// Payload sizes of the boxes around the parameter sets.
pub proof fn lemma_track_payload_lens(
    track_id: u32,
    timescale: u32,
    width: u32,
    height: u32,
    sps: Seq<u8>,
    pps: Seq<u8>,
)
    ensures
        avcc(sps, pps).payload.len() == 11 + sps.len() + pps.len(),
        avc1(width, height, sps, pps).payload.len() == 97 + sps.len() + pps.len(),
        stsd(width, height, sps, pps).payload.len() == 113 + sps.len() + pps.len(),
        stbl(width, height, sps, pps).payload.len() == 189 + sps.len() + pps.len(),
        minf(width, height, sps, pps).payload.len() == 253 + sps.len() + pps.len(),
        mdia(timescale, width, height, sps, pps).payload.len() == 338 + sps.len() + pps.len(),
        trak(track_id, timescale, width, height, sps, pps).payload.len() == 438 + sps.len()
            + pps.len(),
        moov(track_id, timescale, width, height, sps, pps).payload.len() == 594 + sps.len()
            + pps.len(),
        init_segment(track_id, timescale, width, height, sps, pps).len() == 642 + sps.len()
            + pps.len(),
{
    lemma_fixed_payload_lens(timescale, track_id, width, height);
    reveal(avcc_payload);
    reveal(avc1_payload);
    reveal(stsd_payload);
    reveal(stbl_payload);
    reveal(minf_payload);
    reveal(mdia_payload);
    reveal(trak_payload);
    reveal(moov_payload);
    assert(avcc(sps, pps).payload.len() == 11 + sps.len() + pps.len());
    assert(avc1(width, height, sps, pps).payload.len() == 97 + sps.len() + pps.len());
    assert(stsd(width, height, sps, pps).payload.len() == 113 + sps.len() + pps.len());
    assert(stbl(width, height, sps, pps).payload.len() == 189 + sps.len() + pps.len());
    assert(minf(width, height, sps, pps).payload.len() == 253 + sps.len() + pps.len());
    assert(mdia(timescale, width, height, sps, pps).payload.len() == 338 + sps.len()
        + pps.len());
    assert(trak(track_id, timescale, width, height, sps, pps).payload.len() == 438 + sps.len()
        + pps.len());
}

/// Every sample takes 16 bytes in the track run.
pub proof fn lemma_trun_entries_len(samples: Seq<Sample>)
    ensures
        trun_entries(samples).len() == 16 * samples.len(),
    decreases samples.len(),
{
    if samples.len() > 0 {
        lemma_trun_entries_len(samples.drop_last());
    }
}

/// Payload sizes of the boxes of a movie fragment.
pub proof fn lemma_fragment_payload_lens(
    sequence_number: u32,
    track_id: u32,
    base_dts: i64,
    samples: Seq<Sample>,
)
    ensures
        styp().payload.len() == 24,
        mfhd(sequence_number).payload.len() == 8,
        tfhd(track_id).payload.len() == 8,
        tfdt(base_dts).payload.len() == 12,
        trun(samples).payload.len() == 12 + 16 * samples.len(),
        traf(track_id, base_dts, samples).payload.len() == 56 + 16 * samples.len(),
        moof(sequence_number, track_id, base_dts, samples).payload.len() == 80 + 16
            * samples.len(),
        moof(sequence_number, track_id, base_dts, samples).bytes().len() == moof_len(
            samples.len() as int,
        ),
        mdat(samples).payload == sample_data(samples),
{
    reveal(styp_payload);
    reveal(mfhd_payload);
    reveal(tfhd_payload);
    reveal(tfdt_payload);
    reveal(trun_payload);
    reveal(traf_payload);
    reveal(moof_payload);
    lemma_trun_entries_len(samples);
    assert(trun(samples).payload.len() == 12 + 16 * samples.len());
    assert(traf(track_id, base_dts, samples).payload.len() == 56 + 16 * samples.len());
}

/// The fields of a movie fragment that a player reads: the sequence number
/// in the fragment header, the base decode time in the decode time box, and
/// the sample count and data offset in the track run.
proof fn lemma_fragment_fields(
    sequence_number: u32,
    track_id: u32,
    base_dts: i64,
    samples: Seq<Sample>,
)
    requires
        data_offset(samples.len() as int) < 0x1_0000_0000,
    ensures
        u32_at(mfhd(sequence_number).payload, 4) == sequence_number,
        tfdt(base_dts).payload.subrange(4, 12) == be64(low64(base_dts as int)),
        u32_at(trun(samples).payload, 4) == samples.len(),
        u32_at(trun(samples).payload, 8) == data_offset(samples.len() as int),
{
    reveal(mfhd_payload);
    reveal(tfdt_payload);
    reveal(trun_payload);
    let count = samples.len() as int;
    lemma_be32_value(sequence_number as int);
    lemma_be32_value(count);
    lemma_be32_value(data_offset(count));
    assert(low32(count) == count);
    assert(low32(data_offset(count)) == data_offset(count));
    assert(mfhd(sequence_number).payload.subrange(4, 8) =~= be32(sequence_number as int));
    assert(tfdt(base_dts).payload.subrange(4, 12) =~= be64(low64(base_dts as int)));
    assert(trun(samples).payload.subrange(4, 8) =~= be32(count));
    assert(trun(samples).payload.subrange(8, 12) =~= be32(data_offset(count)));
}

/// Boxes written one after the other behind the first `skip` bytes of a
/// payload are what the walk over the rest of the payload finds.
pub proof fn lemma_walk_children(payload: Seq<u8>, skip: int, items: Seq<BoxContent>)
    requires
        0 <= skip <= payload.len(),
        payload.subrange(skip, payload.len() as int) == box_sequence(items),
        forall|i: int| 0 <= i < items.len() ==> (#[trigger] items[i]).fits(),
    ensures
        boxes_between(payload, skip, payload.len() as int) == Some(spans_from(items, skip)),
        forall|i: int|
            0 <= i < items.len() ==> (#[trigger] spans_from(items, skip)[i]).payload(payload)
                == items[i].payload,
{
    assert(box_sequence(items).len() == payload.len() - skip);
    lemma_walk_over_sequence(payload, skip, items);
}

/// A payload that consists of boxes and nothing else.
proof fn lemma_walk_all_children(payload: Seq<u8>, items: Seq<BoxContent>)
    requires
        payload == box_sequence(items),
        forall|i: int| 0 <= i < items.len() ==> (#[trigger] items[i]).fits(),
    ensures
        top_level_boxes(payload) == Some(spans_from(items, 0)),
{
    assert(payload.subrange(0, payload.len() as int) =~= payload);
    lemma_walk_children(payload, 0, items);
}

/// A payload that consists of some bytes and then one box.
proof fn lemma_walk_last_child(payload: Seq<u8>, fields: Seq<u8>, child: BoxContent)
    requires
        payload == fields + child.bytes(),
        child.fits(),
    ensures
        boxes_between(payload, fields.len() as int, payload.len() as int) == Some(
            spans_from(seq![child], fields.len() as int),
        ),
{
    lemma_spans_of_one(child, fields.len() as int);
    assert(payload.subrange(fields.len() as int, payload.len() as int) =~= child.bytes());
    lemma_walk_children(payload, fields.len() as int, seq![child]);
}

/// Five boxes one after the other.
proof fn lemma_sequence_of_five(
    a: BoxContent,
    b: BoxContent,
    c: BoxContent,
    d: BoxContent,
    e: BoxContent,
)
    ensures
        box_sequence(seq![a, b, c, d, e]) == a.bytes() + b.bytes() + c.bytes() + d.bytes()
            + e.bytes(),
{
    reveal_with_fuel(box_sequence, 6);
    let items = seq![a, b, c, d, e];
    assert(items.drop_first() =~= seq![b, c, d, e]);
    assert(items.drop_first().drop_first() =~= seq![c, d, e]);
    assert(items.drop_first().drop_first().drop_first() =~= seq![d, e]);
    assert(items.drop_first().drop_first().drop_first().drop_first() =~= seq![e]);
    assert(items.drop_first().drop_first().drop_first().drop_first().drop_first() =~= Seq::<
        BoxContent,
    >::empty());
    assert(box_sequence(items) =~= a.bytes() + b.bytes() + c.bytes() + d.bytes() + e.bytes());
}

/// The size field at the start of a box holds the length of the box, where
/// that is less than 2^32.
proof fn lemma_size_field(bytes: Seq<u8>, at: int, content: BoxContent)
    requires
        content.fits(),
        0 <= at,
        at + content.bytes().len() <= bytes.len(),
        bytes.subrange(at, at + content.bytes().len()) == content.bytes(),
    ensures
        u32_at(bytes, at) == content.bytes().len(),
        content.bytes().len() == header_len() + content.payload.len(),
{
    let whole = content.bytes();
    let size = header_len() + content.payload.len();
    lemma_boxed_len(content.kind, content.payload);
    lemma_be32_value(size);
    assert(low32(size) == size);
    assert(bytes.subrange(at, at + 4) =~= whole.subrange(0, 4));
    assert(whole.subrange(0, 4) =~= be32(size));
}

/// A buffer that consists of two boxes.
proof fn lemma_two_boxes(bytes: Seq<u8>, a: BoxContent, b: BoxContent)
    requires
        bytes == a.bytes() + b.bytes(),
        a.fits(),
        b.fits(),
    ensures
        ({
            let middle = header_len() + a.payload.len();
            &&& bytes.len() == middle + header_len() + b.payload.len()
            &&& top_level_boxes(bytes) == Some(
                seq![
                    BoxSpan { kind: a.kind, start: 0, end: middle },
                    BoxSpan { kind: b.kind, start: middle, end: bytes.len() as int },
                ],
            )
            &&& u32_at(bytes, 0) == middle
            &&& u32_at(bytes, middle) == bytes.len() - middle
            &&& bytes.subrange(middle + header_len(), bytes.len() as int) == b.payload
        }),
{
    let middle = header_len() + a.payload.len();
    lemma_boxed_len(a.kind, a.payload);
    lemma_boxed_len(b.kind, b.payload);
    lemma_spans_of_two(a, b, 0);
    lemma_walk_all_children(bytes, seq![a, b]);
    assert(bytes.subrange(0, middle) =~= a.bytes());
    lemma_size_field(bytes, 0, a);
    assert(bytes.subrange(middle, bytes.len() as int) =~= b.bytes());
    lemma_size_field(bytes, middle, b);
    assert(bytes.subrange(middle + header_len(), bytes.len() as int) =~= b.bytes().subrange(
        header_len(),
        b.bytes().len() as int,
    ));
    assert(b.bytes().subrange(header_len(), b.bytes().len() as int) =~= b.payload);
}

/// A buffer that consists of three boxes.
proof fn lemma_three_boxes(bytes: Seq<u8>, a: BoxContent, b: BoxContent, c: BoxContent)
    requires
        bytes == a.bytes() + b.bytes() + c.bytes(),
        a.fits(),
        b.fits(),
        c.fits(),
    ensures
        ({
            let second = header_len() + a.payload.len();
            let third = second + header_len() + b.payload.len();
            &&& bytes.len() == third + header_len() + c.payload.len()
            &&& top_level_boxes(bytes) == Some(
                seq![
                    BoxSpan { kind: a.kind, start: 0, end: second },
                    BoxSpan { kind: b.kind, start: second, end: third },
                    BoxSpan { kind: c.kind, start: third, end: bytes.len() as int },
                ],
            )
            &&& bytes.subrange(second, third) == b.bytes()
            &&& bytes.subrange(third + header_len(), bytes.len() as int) == c.payload
        }),
{
    let second = header_len() + a.payload.len();
    let third = second + header_len() + b.payload.len();
    lemma_boxed_len(a.kind, a.payload);
    lemma_boxed_len(b.kind, b.payload);
    lemma_boxed_len(c.kind, c.payload);
    lemma_spans_of_three(a, b, c, 0);
    lemma_walk_all_children(bytes, seq![a, b, c]);
    assert(bytes.subrange(second, third) =~= b.bytes());
    assert(bytes.subrange(third + header_len(), bytes.len() as int) =~= c.bytes().subrange(
        header_len(),
        c.bytes().len() as int,
    ));
    assert(c.bytes().subrange(header_len(), c.bytes().len() as int) =~= c.payload);
}

/// Where the fields of a movie fragment box that lies at `at` in a buffer
/// come to lie.
proof fn lemma_fragment_positions(
    bytes: Seq<u8>,
    at: int,
    the_moof: BoxContent,
    the_mfhd: BoxContent,
    the_traf: BoxContent,
    the_tfhd: BoxContent,
    the_tfdt: BoxContent,
    the_trun: BoxContent,
)
    requires
        0 <= at,
        at + the_moof.bytes().len() <= bytes.len(),
        bytes.subrange(at, at + the_moof.bytes().len()) == the_moof.bytes(),
        the_moof.payload == the_mfhd.bytes() + the_traf.bytes(),
        the_traf.payload == the_tfhd.bytes() + the_tfdt.bytes() + the_trun.bytes(),
        the_moof.kind.len() == 4,
        the_mfhd.kind.len() == 4,
        the_traf.kind.len() == 4,
        the_tfhd.kind.len() == 4,
        the_tfdt.kind.len() == 4,
        the_trun.kind.len() == 4,
        the_mfhd.payload.len() == 8,
        the_tfhd.payload.len() == 8,
        the_tfdt.payload.len() == 12,
        the_trun.payload.len() >= 12,
    ensures
        u32_at(bytes, at + 20) == u32_at(the_mfhd.payload, 4),
        bytes.subrange(at + 60, at + 68) == the_tfdt.payload.subrange(4, 12),
        u32_at(bytes, at + 80) == u32_at(the_trun.payload, 4),
        u32_at(bytes, at + 84) == u32_at(the_trun.payload, 8),
        the_moof.bytes().len() == 76 + the_trun.payload.len(),
{
    lemma_boxed_len(the_mfhd.kind, the_mfhd.payload);
    lemma_boxed_len(the_traf.kind, the_traf.payload);
    lemma_boxed_len(the_tfhd.kind, the_tfhd.payload);
    lemma_boxed_len(the_tfdt.kind, the_tfdt.payload);
    lemma_boxed_len(the_trun.kind, the_trun.payload);

    // The movie fragment: header at `at`, payload at `at + 8`.
    lemma_payload_position(bytes, at, the_moof);
    let in_moof = the_moof.payload;
    lemma_part_position(bytes, at + 8, in_moof, 0, 16);
    assert(in_moof.subrange(0, 16) =~= the_mfhd.bytes());
    lemma_payload_position(bytes, at + 8, the_mfhd);
    lemma_part_position(bytes, at + 16, the_mfhd.payload, 4, 8);

    // The track fragment: header at `at + 24`, payload at `at + 32`.
    lemma_part_position(bytes, at + 8, in_moof, 16, in_moof.len() as int);
    assert(in_moof.subrange(16, in_moof.len() as int) =~= the_traf.bytes());
    lemma_payload_position(bytes, at + 24, the_traf);
    let in_traf = the_traf.payload;
    lemma_part_position(bytes, at + 32, in_traf, 16, 36);
    assert(in_traf.subrange(16, 36) =~= the_tfdt.bytes());
    lemma_payload_position(bytes, at + 48, the_tfdt);
    lemma_part_position(bytes, at + 56, the_tfdt.payload, 4, 12);

    // The track run: header at `at + 68`, payload at `at + 76`.
    lemma_part_position(bytes, at + 32, in_traf, 36, in_traf.len() as int);
    assert(in_traf.subrange(36, in_traf.len() as int) =~= the_trun.bytes());
    lemma_payload_position(bytes, at + 68, the_trun);
    lemma_part_position(bytes, at + 76, the_trun.payload, 4, 8);
    lemma_part_position(bytes, at + 76, the_trun.payload, 8, 12);
}

/// Where the three boxes of a buffer that consists of them come to lie.
proof fn lemma_three_box_positions(bytes: Seq<u8>, a: BoxContent, b: BoxContent, c: BoxContent)
    requires
        bytes == a.bytes() + b.bytes() + c.bytes(),
        a.kind.len() == 4,
        b.kind.len() == 4,
        c.kind.len() == 4,
    ensures
        ({
            let second = header_len() + a.payload.len();
            let third = second + header_len() + b.payload.len();
            &&& bytes.len() == third + header_len() + c.payload.len()
            &&& b.bytes().len() == header_len() + b.payload.len()
            &&& bytes.subrange(second, third) == b.bytes()
            &&& bytes.subrange(third + header_len(), bytes.len() as int) == c.payload
        }),
{
    let second = header_len() + a.payload.len();
    let third = second + header_len() + b.payload.len();
    lemma_boxed_len(a.kind, a.payload);
    lemma_boxed_len(b.kind, b.payload);
    lemma_boxed_len(c.kind, c.payload);
    assert(bytes.subrange(second, third) =~= b.bytes());
    assert(bytes.subrange(third, bytes.len() as int) =~= c.bytes());
    lemma_payload_position(bytes, third, c);
}

/// The boxes inside a movie fragment box that lies at `at` in a buffer.
proof fn lemma_fragment_shape(
    bytes: Seq<u8>,
    at: int,
    the_moof: BoxContent,
    the_mfhd: BoxContent,
    the_traf: BoxContent,
    the_tfhd: BoxContent,
    the_tfdt: BoxContent,
    the_trun: BoxContent,
)
    requires
        0 <= at,
        at + the_moof.bytes().len() <= bytes.len(),
        bytes.subrange(at, at + the_moof.bytes().len()) == the_moof.bytes(),
        the_moof.payload == the_mfhd.bytes() + the_traf.bytes(),
        the_traf.payload == the_tfhd.bytes() + the_tfdt.bytes() + the_trun.bytes(),
        the_moof.fits(),
        the_mfhd.fits(),
        the_traf.fits(),
        the_tfhd.fits(),
        the_tfdt.fits(),
        the_trun.fits(),
        the_mfhd.payload.len() == 8,
        the_tfhd.payload.len() == 8,
        the_tfdt.payload.len() == 12,
    ensures
        ({
            let end = at + the_moof.bytes().len();
            &&& boxes_between(bytes, at + 8, end) == Some(
                seq![
                    BoxSpan { kind: the_mfhd.kind, start: at + 8, end: at + 24 },
                    BoxSpan { kind: the_traf.kind, start: at + 24, end: end },
                ],
            )
            &&& boxes_between(bytes, at + 32, end) == Some(
                seq![
                    BoxSpan { kind: the_tfhd.kind, start: at + 32, end: at + 48 },
                    BoxSpan { kind: the_tfdt.kind, start: at + 48, end: at + 68 },
                    BoxSpan { kind: the_trun.kind, start: at + 68, end: end },
                ],
            )
        }),
{
    let end = at + the_moof.bytes().len();
    lemma_boxed_len(the_moof.kind, the_moof.payload);
    lemma_boxed_len(the_mfhd.kind, the_mfhd.payload);
    lemma_boxed_len(the_traf.kind, the_traf.payload);
    lemma_boxed_len(the_tfhd.kind, the_tfhd.payload);
    lemma_boxed_len(the_tfdt.kind, the_tfdt.payload);
    lemma_boxed_len(the_trun.kind, the_trun.payload);

    let in_moof = seq![the_mfhd, the_traf];
    lemma_spans_of_two(the_mfhd, the_traf, at + 8);
    assert(the_moof.payload.subrange(0, the_moof.payload.len() as int) =~= box_sequence(
        in_moof,
    ));
    lemma_walk_inside_box(bytes, at, the_moof, 0, in_moof);

    // The track fragment lies at `at + 24`.
    assert(bytes.subrange(at + 24, end) =~= the_moof.bytes().subrange(
        24,
        the_moof.bytes().len() as int,
    ));
    assert(the_moof.bytes().subrange(24, the_moof.bytes().len() as int) =~= the_traf.bytes());
    let in_traf = seq![the_tfhd, the_tfdt, the_trun];
    lemma_spans_of_three(the_tfhd, the_tfdt, the_trun, at + 32);
    assert(the_traf.payload.subrange(0, the_traf.payload.len() as int) =~= box_sequence(
        in_traf,
    ));
    lemma_walk_inside_box(bytes, at + 24, the_traf, 0, in_traf);
}

/// The initialization segment is a file type box followed by one movie
/// box, and nothing else.
///
/// The segment is 642 bytes plus the two parameter sets long. Where that is
/// less than 2^32, whatever the dimensions: the walk over the segment finds a
/// file type box of 40 bytes and then one movie box that ends where the
/// segment ends, and the two declared sizes add up to the length of the
/// segment.
pub proof fn lemma_init_segment_boxes(
    track_id: u32,
    timescale: u32,
    width: u32,
    height: u32,
    sps: Seq<u8>,
    pps: Seq<u8>,
)
    requires
        642 + sps.len() + pps.len() < 0x1_0000_0000,
    ensures
        ({
            let bytes = init_segment(track_id, timescale, width, height, sps, pps);
            &&& bytes.len() == 642 + sps.len() + pps.len()
            &&& top_level_boxes(bytes) == Some(
                seq![
                    BoxSpan { kind: fourcc('f', 't', 'y', 'p'), start: 0, end: 40 },
                    BoxSpan { kind: fourcc('m', 'o', 'o', 'v'), start: 40, end: bytes.len() as int },
                ],
            )
            &&& is_file_type_and_movie(bytes)
            &&& u32_at(bytes, 0) == 40
            &&& u32_at(bytes, 0) + u32_at(bytes, 40) == bytes.len()
            &&& bytes.subrange(48, bytes.len() as int) == moov(
                track_id,
                timescale,
                width,
                height,
                sps,
                pps,
            ).payload
        }),
{
    lemma_fixed_payload_lens(timescale, track_id, width, height);
    lemma_track_payload_lens(track_id, timescale, width, height, sps, pps);
    let bytes = init_segment(track_id, timescale, width, height, sps, pps);
    let the_moov = moov(track_id, timescale, width, height, sps, pps);
    lemma_two_boxes(bytes, ftyp(), the_moov);
}

/// The children of the movie box and of the track box.
proof fn lemma_moov_children(
    track_id: u32,
    timescale: u32,
    width: u32,
    height: u32,
    sps: Seq<u8>,
    pps: Seq<u8>,
)
    requires
        642 + sps.len() + pps.len() < 0x1_0000_0000,
    ensures
        top_level_boxes(moov(track_id, timescale, width, height, sps, pps).payload) == Some(
            spans_from(
                seq![
                    mvhd(timescale),
                    trak(track_id, timescale, width, height, sps, pps),
                    mvex(track_id),
                ],
                0,
            ),
        ),
        top_level_boxes(trak(track_id, timescale, width, height, sps, pps).payload) == Some(
            spans_from(
                seq![tkhd(track_id, width, height), mdia(timescale, width, height, sps, pps)],
                0,
            ),
        ),
{
    lemma_fixed_payload_lens(timescale, track_id, width, height);
    lemma_track_payload_lens(track_id, timescale, width, height, sps, pps);
    let the_moov = moov(track_id, timescale, width, height, sps, pps);
    let the_trak = trak(track_id, timescale, width, height, sps, pps);
    let the_mdia = mdia(timescale, width, height, sps, pps);
    reveal(moov_payload);
    reveal(trak_payload);
    lemma_boxed_len(mvhd(timescale).kind, mvhd(timescale).payload);
    lemma_boxed_len(the_trak.kind, the_trak.payload);
    lemma_boxed_len(mvex(track_id).kind, mvex(track_id).payload);
    lemma_boxed_len(tkhd(track_id, width, height).kind, tkhd(track_id, width, height).payload);
    lemma_boxed_len(the_mdia.kind, the_mdia.payload);
    lemma_spans_of_three(mvhd(timescale), the_trak, mvex(track_id), 0);
    lemma_walk_all_children(the_moov.payload, seq![mvhd(timescale), the_trak, mvex(track_id)]);
    lemma_spans_of_two(tkhd(track_id, width, height), the_mdia, 0);
    lemma_walk_all_children(the_trak.payload, seq![tkhd(track_id, width, height), the_mdia]);
}

/// The children of the media box and of the media information box.
proof fn lemma_mdia_children(timescale: u32, width: u32, height: u32, sps: Seq<u8>, pps: Seq<u8>)
    requires
        642 + sps.len() + pps.len() < 0x1_0000_0000,
    ensures
        top_level_boxes(mdia(timescale, width, height, sps, pps).payload) == Some(
            spans_from(seq![mdhd(timescale), hdlr(), minf(width, height, sps, pps)], 0),
        ),
        top_level_boxes(minf(width, height, sps, pps).payload) == Some(
            spans_from(seq![vmhd(), dinf(), stbl(width, height, sps, pps)], 0),
        ),
{
    lemma_fixed_payload_lens(timescale, 0, width, height);
    lemma_track_payload_lens(0, timescale, width, height, sps, pps);
    let the_mdia = mdia(timescale, width, height, sps, pps);
    let the_minf = minf(width, height, sps, pps);
    let the_stbl = stbl(width, height, sps, pps);
    reveal(mdia_payload);
    reveal(minf_payload);
    lemma_boxed_len(mdhd(timescale).kind, mdhd(timescale).payload);
    lemma_boxed_len(hdlr().kind, hdlr().payload);
    lemma_boxed_len(the_minf.kind, the_minf.payload);
    lemma_boxed_len(vmhd().kind, vmhd().payload);
    lemma_boxed_len(dinf().kind, dinf().payload);
    lemma_boxed_len(the_stbl.kind, the_stbl.payload);
    lemma_spans_of_three(mdhd(timescale), hdlr(), the_minf, 0);
    lemma_walk_all_children(the_mdia.payload, seq![mdhd(timescale), hdlr(), the_minf]);
    lemma_spans_of_three(vmhd(), dinf(), the_stbl, 0);
    lemma_walk_all_children(the_minf.payload, seq![vmhd(), dinf(), the_stbl]);
}

/// The children of the sample table, of the sample description and of the
/// sample entry.
proof fn lemma_stbl_children(width: u32, height: u32, sps: Seq<u8>, pps: Seq<u8>)
    requires
        642 + sps.len() + pps.len() < 0x1_0000_0000,
    ensures
        top_level_boxes(stbl(width, height, sps, pps).payload) == Some(
            spans_from(
                seq![stsd(width, height, sps, pps), stts(), stsc(), stsz(), stco()],
                0,
            ),
        ),
        boxes_between(
            stsd(width, height, sps, pps).payload,
            8,
            stsd(width, height, sps, pps).payload.len() as int,
        ) == Some(spans_from(seq![avc1(width, height, sps, pps)], 8)),
        boxes_between(
            avc1(width, height, sps, pps).payload,
            78,
            avc1(width, height, sps, pps).payload.len() as int,
        ) == Some(spans_from(seq![avcc(sps, pps)], 78)),
{
    lemma_fixed_payload_lens(0, 0, width, height);
    lemma_track_payload_lens(0, 0, width, height, sps, pps);
    let the_stbl = stbl(width, height, sps, pps);
    let the_stsd = stsd(width, height, sps, pps);
    let the_avc1 = avc1(width, height, sps, pps);
    reveal(stbl_payload);
    reveal(stsd_payload);
    reveal(avc1_payload);
    lemma_sequence_of_five(the_stsd, stts(), stsc(), stsz(), stco());
    lemma_walk_all_children(the_stbl.payload, seq![the_stsd, stts(), stsc(), stsz(), stco()]);
    lemma_walk_last_child(
        the_stsd.payload,
        plain_version_flags() + be32(1),
        the_avc1,
    );
    lemma_walk_last_child(the_avc1.payload, avc1_fields(width, height), avcc(sps, pps));
}

/// The children of the containers whose content is fixed.
proof fn lemma_fixed_children(track_id: u32)
    ensures
        top_level_boxes(dinf().payload) == Some(spans_from(seq![dref()], 0)),
        boxes_between(dref().payload, 8, dref().payload.len() as int) == Some(
            spans_from(seq![url_entry()], 8),
        ),
        top_level_boxes(mvex(track_id).payload) == Some(spans_from(seq![trex(track_id)], 0)),
{
    lemma_fixed_payload_lens(0, track_id, 0, 0);
    reveal(dref_payload);
    reveal(dinf_payload);
    reveal(mvex_payload);
    lemma_spans_of_one(dref(), 0);
    lemma_walk_all_children(dinf().payload, seq![dref()]);
    lemma_walk_last_child(
        dref().payload,
        plain_version_flags() + be32(1),
        url_entry(),
    );
    lemma_spans_of_one(trex(track_id), 0);
    lemma_walk_all_children(mvex(track_id).payload, seq![trex(track_id)]);
}

/// The boxes within the movie box, level by level.
///
/// Where the initialization segment is shorter than 2^32 bytes: every
/// container of the movie box holds the boxes listed here and nothing else,
/// and their declared sizes tile the container exactly. The sample description, the
/// sample entry and the data reference hold their one box behind their own
/// fields.
pub proof fn lemma_movie_box_tree(
    track_id: u32,
    timescale: u32,
    width: u32,
    height: u32,
    sps: Seq<u8>,
    pps: Seq<u8>,
)
    requires
        642 + sps.len() + pps.len() < 0x1_0000_0000,
    ensures
        top_level_boxes(moov(track_id, timescale, width, height, sps, pps).payload) == Some(
            spans_from(
                seq![
                    mvhd(timescale),
                    trak(track_id, timescale, width, height, sps, pps),
                    mvex(track_id),
                ],
                0,
            ),
        ),
        top_level_boxes(trak(track_id, timescale, width, height, sps, pps).payload) == Some(
            spans_from(
                seq![tkhd(track_id, width, height), mdia(timescale, width, height, sps, pps)],
                0,
            ),
        ),
        top_level_boxes(mdia(timescale, width, height, sps, pps).payload) == Some(
            spans_from(seq![mdhd(timescale), hdlr(), minf(width, height, sps, pps)], 0),
        ),
        top_level_boxes(minf(width, height, sps, pps).payload) == Some(
            spans_from(seq![vmhd(), dinf(), stbl(width, height, sps, pps)], 0),
        ),
        top_level_boxes(dinf().payload) == Some(spans_from(seq![dref()], 0)),
        boxes_between(dref().payload, 8, dref().payload.len() as int) == Some(
            spans_from(seq![url_entry()], 8),
        ),
        top_level_boxes(stbl(width, height, sps, pps).payload) == Some(
            spans_from(
                seq![stsd(width, height, sps, pps), stts(), stsc(), stsz(), stco()],
                0,
            ),
        ),
        boxes_between(
            stsd(width, height, sps, pps).payload,
            8,
            stsd(width, height, sps, pps).payload.len() as int,
        ) == Some(spans_from(seq![avc1(width, height, sps, pps)], 8)),
        boxes_between(
            avc1(width, height, sps, pps).payload,
            78,
            avc1(width, height, sps, pps).payload.len() as int,
        ) == Some(spans_from(seq![avcc(sps, pps)], 78)),
        top_level_boxes(mvex(track_id).payload) == Some(spans_from(seq![trex(track_id)], 0)),
{
    lemma_moov_children(track_id, timescale, width, height, sps, pps);
    lemma_mdia_children(timescale, width, height, sps, pps);
    lemma_stbl_children(width, height, sps, pps);
    lemma_fixed_children(track_id);
}

/// What the walk finds in a media segment, over the boxes themselves.
proof fn lemma_fragment_in_segment(
    sequence_number: u32,
    track_id: u32,
    base_dts: i64,
    samples: Seq<Sample>,
)
    requires
        data_offset(samples.len() as int) < 0x1_0000_0000,
        header_len() + sample_data(samples).len() < 0x1_0000_0000,
    ensures
        ({
            let bytes = media_segment(sequence_number, track_id, base_dts, samples);
            let end = 32 + moof_len(samples.len() as int);
            &&& bytes.len() == end + header_len() + sample_data(samples).len()
            &&& top_level_boxes(bytes) == Some(
                seq![
                    BoxSpan { kind: styp().kind, start: 0, end: 32 },
                    BoxSpan { kind: fourcc('m', 'o', 'o', 'f'), start: 32, end: end },
                    BoxSpan { kind: fourcc('m', 'd', 'a', 't'), start: end, end: bytes.len() as int },
                ],
            )
            &&& bytes.subrange(end + header_len(), bytes.len() as int) == sample_data(samples)
            &&& boxes_between(bytes, 40, end) == Some(
                seq![
                    BoxSpan { kind: fourcc('m', 'f', 'h', 'd'), start: 40, end: 56 },
                    BoxSpan { kind: fourcc('t', 'r', 'a', 'f'), start: 56, end: end },
                ],
            )
            &&& boxes_between(bytes, 64, end) == Some(
                seq![
                    BoxSpan { kind: fourcc('t', 'f', 'h', 'd'), start: 64, end: 80 },
                    BoxSpan { kind: fourcc('t', 'f', 'd', 't'), start: 80, end: 100 },
                    BoxSpan { kind: fourcc('t', 'r', 'u', 'n'), start: 100, end: end },
                ],
            )
        }),
{
    let bytes = media_segment(sequence_number, track_id, base_dts, samples);
    let the_moof = moof(sequence_number, track_id, base_dts, samples);
    let the_traf = traf(track_id, base_dts, samples);
    lemma_fragment_payload_lens(sequence_number, track_id, base_dts, samples);
    reveal(moof_payload);
    reveal(traf_payload);
    lemma_boxed_len(the_moof.kind, the_moof.payload);
    lemma_three_boxes(bytes, styp(), the_moof, mdat(samples));
    lemma_fragment_shape(
        bytes,
        32,
        the_moof,
        mfhd(sequence_number),
        the_traf,
        tfhd(track_id),
        tfdt(base_dts),
        trun(samples),
    );
}

/// A media segment is a segment type box, one movie fragment box and one
/// media data box.
///
/// This holds where the size fields can hold the sizes: the data offset is
/// below 2^32, and so is the size of the media data box. Then the walk over
/// the segment finds the three boxes, which tile the segment exactly. The
/// movie fragment holds its header and one track fragment, which holds its
/// header, the decode time and the track run.
pub proof fn lemma_media_segment_boxes(
    sequence_number: u32,
    track_id: u32,
    base_dts: i64,
    samples: Seq<Sample>,
)
    requires
        data_offset(samples.len() as int) < 0x1_0000_0000,
        header_len() + sample_data(samples).len() < 0x1_0000_0000,
    ensures
        ({
            let bytes = media_segment(sequence_number, track_id, base_dts, samples);
            let moof_start: int = 32;
            let mdat_start = moof_start + moof_len(samples.len() as int);
            &&& bytes.len() == mdat_start + header_len() + sample_data(samples).len()
            &&& top_level_boxes(bytes) == Some(
                seq![
                    BoxSpan { kind: fourcc('s', 't', 'y', 'p'), start: 0, end: moof_start },
                    BoxSpan { kind: fourcc('m', 'o', 'o', 'f'), start: moof_start, end: mdat_start },
                    BoxSpan {
                        kind: fourcc('m', 'd', 'a', 't'),
                        start: mdat_start,
                        end: bytes.len() as int,
                    },
                ],
            )
            &&& boxes_between(bytes, moof_start + 8, mdat_start) == Some(
                seq![
                    BoxSpan { kind: fourcc('m', 'f', 'h', 'd'), start: 40, end: 56 },
                    BoxSpan { kind: fourcc('t', 'r', 'a', 'f'), start: 56, end: mdat_start },
                ],
            )
            &&& boxes_between(bytes, 64, mdat_start) == Some(
                seq![
                    BoxSpan { kind: fourcc('t', 'f', 'h', 'd'), start: 64, end: 80 },
                    BoxSpan { kind: fourcc('t', 'f', 'd', 't'), start: 80, end: 100 },
                    BoxSpan { kind: fourcc('t', 'r', 'u', 'n'), start: 100, end: mdat_start },
                ],
            )
        }),
{
    lemma_fragment_in_segment(sequence_number, track_id, base_dts, samples);
}

/// The data offset of the track run leads to the sample data.
///
/// Where the data offset is below 2^32, however large the sample data is:
/// the track run, which lies at byte 100 of the segment, gives the
/// number of samples, and its data offset, counted from the first byte of
/// the movie fragment box at byte 32, is the position of the first byte
/// behind the header of the media data box. From there on the segment holds
/// the sample data and nothing else. The fragment header holds the sequence
/// number, and the decode time box the base decode time, as a 64-bit number
/// in two's complement.
pub proof fn lemma_data_offset_leads_to_samples(
    sequence_number: u32,
    track_id: u32,
    base_dts: i64,
    samples: Seq<Sample>,
)
    requires
        data_offset(samples.len() as int) < 0x1_0000_0000,
    ensures
        ({
            let bytes = media_segment(sequence_number, track_id, base_dts, samples);
            let moof_start: int = 32;
            let mdat_start = moof_start + moof_len(samples.len() as int);
            &&& bytes.len() == mdat_start + header_len() + sample_data(samples).len()
            &&& u32_at(bytes, 52) == sequence_number
            &&& bytes.subrange(92, 100) == be64(low64(base_dts as int))
            &&& be_value(bytes.subrange(92, 100)) == low64(base_dts as int)
            &&& base_dts >= 0 ==> be_value(bytes.subrange(92, 100)) == base_dts
            &&& u32_at(bytes, 112) == samples.len()
            &&& moof_start + u32_at(bytes, 116) == mdat_start + header_len()
            &&& bytes.subrange(mdat_start + header_len(), bytes.len() as int) == sample_data(
                samples,
            )
            &&& data_offset_leads_to(bytes, sample_data(samples))
        }),
{
    lemma_fields_in_segment(sequence_number, track_id, base_dts, samples);
    lemma_fragment_fields(sequence_number, track_id, base_dts, samples);
    lemma_be64_value(low64(base_dts as int));
}

/// Where the fields of the movie fragment come to lie in a media segment.
proof fn lemma_fields_in_segment(
    sequence_number: u32,
    track_id: u32,
    base_dts: i64,
    samples: Seq<Sample>,
)
    ensures
        ({
            let bytes = media_segment(sequence_number, track_id, base_dts, samples);
            let mdat_start = 32 + moof_len(samples.len() as int);
            &&& bytes.len() == mdat_start + header_len() + sample_data(samples).len()
            &&& u32_at(bytes, 52) == u32_at(mfhd(sequence_number).payload, 4)
            &&& bytes.subrange(92, 100) == tfdt(base_dts).payload.subrange(4, 12)
            &&& u32_at(bytes, 112) == u32_at(trun(samples).payload, 4)
            &&& u32_at(bytes, 116) == u32_at(trun(samples).payload, 8)
            &&& bytes.subrange(mdat_start + header_len(), bytes.len() as int) == sample_data(
                samples,
            )
        }),
{
    let bytes = media_segment(sequence_number, track_id, base_dts, samples);
    let the_moof = moof(sequence_number, track_id, base_dts, samples);
    lemma_fragment_payload_lens(sequence_number, track_id, base_dts, samples);
    lemma_boxed_len(the_moof.kind, the_moof.payload);
    reveal(moof_payload);
    reveal(traf_payload);
    lemma_three_box_positions(bytes, styp(), the_moof, mdat(samples));
    lemma_fragment_positions(
        bytes,
        32,
        the_moof,
        mfhd(sequence_number),
        traf(track_id, base_dts, samples),
        tfhd(track_id),
        tfdt(base_dts),
        trun(samples),
    );
}

/// What a decoder reads from the decoder configuration box.
///
/// For parameter sets of at most 65535 bytes each: the payload starts with
/// the configuration version 1 and the profile, compatibility and level
/// bytes, announces 4-byte NAL lengths and one sequence parameter set, and
/// holds the sequence parameter set behind its length; then it announces one
/// picture parameter set and holds it behind its length, and ends there.
pub proof fn lemma_decoder_configuration(sps: Seq<u8>, pps: Seq<u8>)
    requires
        sps.len() <= 0xFFFF,
        pps.len() <= 0xFFFF,
    ensures
        ({
            let payload = avcc(sps, pps).payload;
            let s = sps.len() as int;
            let p = pps.len() as int;
            &&& payload.len() == 11 + s + p
            &&& payload[0] == 1
            &&& payload.subrange(1, 4) == profile_bytes(sps)
            &&& payload[4] == 0xFF
            &&& payload[5] == 0xE1
            &&& be_value(payload.subrange(6, 8)) == s
            &&& payload.subrange(8, 8 + s) == sps
            &&& payload[8 + s] == 1
            &&& be_value(payload.subrange(9 + s, 11 + s)) == p
            &&& payload.subrange(11 + s, 11 + s + p) == pps
        }),
{
    reveal(avcc_payload);
    let payload = avcc(sps, pps).payload;
    let s = sps.len() as int;
    let p = pps.len() as int;
    lemma_be16_value(s);
    lemma_be16_value(p);
    assert(low16(s) == s);
    assert(low16(p) == p);
    assert(payload.subrange(1, 4) =~= profile_bytes(sps));
    assert(payload.subrange(6, 8) =~= be16(s));
    assert(payload.subrange(8, 8 + s) =~= sps);
    assert(payload.subrange(9 + s, 11 + s) =~= be16(p));
    assert(payload.subrange(11 + s, 11 + s + p) =~= pps);
}

} // verus!
