//! Writing NAL units in AVCC format and parsing them back.
//!
//! `avcc_encoding` is the format that `parse_avcc` reads. The facts here say
//! that the parser finds exactly the units that were written, and that it
//! reports a unit whose length field announces more bytes than are left.

use vstd::prelude::*;
use super::be_bytes::{be16, be32, be_value, lemma_be16_value, lemma_be32_value, low32, low_byte};
use super::cmaf_muxer::sample_payload;
use super::nal_extractor::{NalError, NalUnitView, parse_avcc, prepend_units};

verus! {

/// A length field of `width` bytes holding `length`.
pub open spec fn length_field(width: int, length: int) -> Seq<u8> {
    if width == 1 {
        seq![low_byte(length)]
    } else if width == 2 {
        be16(length)
    } else {
        be32(length)
    }
}

/// The largest length that a field of `width` bytes can hold.
pub open spec fn max_length(width: int) -> int {
    if width == 1 {
        0xFF
    } else if width == 2 {
        0xFFFF
    } else {
        0xFFFF_FFFF
    }
}

/// A unit as the parser produces it, for a given width of the length field:
/// it is not empty, its length fits the field, and its type is the low five
/// bits of its first byte.
pub open spec fn well_formed_unit(unit: NalUnitView, width: int) -> bool {
    &&& 1 <= unit.data.len() <= max_length(width)
    &&& unit.nal_type == unit.data[0] & 0x1F
}

/// All units of a list are well formed.
pub open spec fn well_formed_units(units: Seq<NalUnitView>, width: int) -> bool {
    forall|i: int| 0 <= i < units.len() ==> well_formed_unit(#[trigger] units[i], width)
}

/// NAL units in AVCC format: each unit behind its length.
pub open spec fn avcc_encoding(units: Seq<NalUnitView>, width: int) -> Seq<u8>
    decreases units.len(),
{
    if units.len() == 0 {
        Seq::empty()
    } else {
        length_field(width, units.first().data.len() as int) + units.first().data + avcc_encoding(
            units.drop_first(),
            width,
        )
    }
}

/// A length field is `width` bytes long and holds its length.
pub proof fn lemma_length_field(width: int, length: int)
    requires
        width == 1 || width == 2 || width == 4,
        0 <= length <= max_length(width),
    ensures
        length_field(width, length).len() == width,
        be_value(length_field(width, length)) == length,
{
    if width == 1 {
        let field = length_field(width, length);
        reveal(low_byte);
        reveal_with_fuel(be_value, 2);
        assert(field.drop_last() =~= Seq::<u8>::empty());
    } else if width == 2 {
        lemma_be16_value(length);
    } else {
        lemma_be32_value(length);
    }
}

/// The parser finds a well-formed unit that stands at the start of the data
/// and goes on behind it.
pub proof fn lemma_parse_first_unit(unit: NalUnitView, rest: Seq<u8>, width: int)
    requires
        width == 1 || width == 2 || width == 4,
        well_formed_unit(unit, width),
    ensures
        parse_avcc(length_field(width, unit.data.len() as int) + unit.data + rest, width)
            == prepend_units(seq![unit], parse_avcc(rest, width)),
{
    let length = unit.data.len() as int;
    let field = length_field(width, length);
    let data = field + unit.data + rest;
    lemma_length_field(width, length);
    assert(data.subrange(0, width) =~= field);
    assert(data.subrange(width, width + length) =~= unit.data);
    assert(data[width] == unit.data[0]);
    assert(data.subrange(width + length, data.len() as int) =~= rest);
}

/// Parsing what was written gives back what was written: behind well-formed
/// units in AVCC format, the parser goes on with the bytes that follow, and
/// what it finds there comes behind the units.
pub proof fn lemma_parse_encoding(units: Seq<NalUnitView>, rest: Seq<u8>, width: int)
    requires
        width == 1 || width == 2 || width == 4,
        well_formed_units(units, width),
    ensures
        parse_avcc(avcc_encoding(units, width) + rest, width) == prepend_units(
            units,
            parse_avcc(rest, width),
        ),
    decreases units.len(),
{
    if units.len() == 0 {
        assert(avcc_encoding(units, width) + rest =~= rest);
        match parse_avcc(rest, width) {
            Ok(more) => {
                assert(units + more =~= more);
            },
            Err(_) => {},
        }
    } else {
        let first = units.first();
        let others = units.drop_first();
        assert(well_formed_unit(units[0], width));
        assert forall|i: int| 0 <= i < others.len() implies well_formed_unit(
            #[trigger] others[i],
            width,
        ) by {
            assert(others[i] == units[i + 1]);
        }
        let behind = avcc_encoding(others, width) + rest;
        assert(avcc_encoding(units, width) + rest =~= length_field(
            width,
            first.data.len() as int,
        ) + first.data + behind);
        lemma_parse_first_unit(first, behind, width);
        lemma_parse_encoding(others, rest, width);
        match parse_avcc(rest, width) {
            Ok(more) => {
                assert(seq![first] + (others + more) =~= units + more);
            },
            Err(_) => {},
        }
    }
}

/// Well-formed units in AVCC format parse back into exactly these units.
pub proof fn lemma_round_trip(units: Seq<NalUnitView>, width: int)
    requires
        width == 1 || width == 2 || width == 4,
        well_formed_units(units, width),
    ensures
        parse_avcc(avcc_encoding(units, width), width) == Ok::<Seq<NalUnitView>, NalError>(units),
{
    let rest = Seq::<u8>::empty();
    lemma_parse_encoding(units, rest, width);
    assert(avcc_encoding(units, width) + rest =~= avcc_encoding(units, width));
    assert(units + Seq::<NalUnitView>::empty() =~= units);
}

/// A unit whose length field announces more bytes than are left makes the
/// whole access unit fail with `BufferTooSmall`, however many good units
/// stand before it.
pub proof fn lemma_truncated_unit(units: Seq<NalUnitView>, rest: Seq<u8>, width: int)
    requires
        width == 1 || width == 2 || width == 4,
        well_formed_units(units, width),
        rest.len() >= width,
        be_value(rest.subrange(0, width)) > rest.len() - width,
    ensures
        parse_avcc(avcc_encoding(units, width) + rest, width) == Err::<
            Seq<NalUnitView>,
            NalError,
        >(NalError::BufferTooSmall),
{
    lemma_parse_encoding(units, rest, width);
}

/// The coded slices among a list of units, in their order.
pub open spec fn slices_of(units: Seq<NalUnitView>) -> Seq<NalUnitView> {
    units.filter(|unit: NalUnitView| unit.is_slice())
}

/// The payload that the muxer writes for a frame is the AVCC encoding of the
/// frame's coded slices with 4-byte lengths, where no unit has 2^32 bytes or
/// more.
pub proof fn lemma_payload_is_encoding(units: Seq<NalUnitView>)
    requires
        forall|i: int| 0 <= i < units.len() ==> (#[trigger] units[i]).data.len() <= 0xFFFF_FFFF,
    ensures
        sample_payload(units) == avcc_encoding(slices_of(units), 4),
    decreases units.len(),
{
    reveal(Seq::filter);
    if units.len() == 0 {
        assert(slices_of(units) =~= Seq::<NalUnitView>::empty());
    } else {
        let front = units.drop_last();
        let last = units.last();
        assert forall|i: int| 0 <= i < front.len() implies (#[trigger] front[i]).data.len()
            <= 0xFFFF_FFFF by {
            assert(front[i] == units[i]);
        }
        lemma_payload_is_encoding(front);
        if last.is_slice() {
            assert(slices_of(units) =~= slices_of(front).push(last));
            lemma_encoding_push(slices_of(front), last, 4);
            assert(low32(last.data.len() as int) == last.data.len());
        } else {
            assert(slices_of(units) =~= slices_of(front));
        }
    }
}

/// The encoding of a list with one more unit at its end.
pub proof fn lemma_encoding_push(units: Seq<NalUnitView>, unit: NalUnitView, width: int)
    ensures
        avcc_encoding(units.push(unit), width) == avcc_encoding(units, width) + length_field(
            width,
            unit.data.len() as int,
        ) + unit.data,
    decreases units.len(),
{
    let longer = units.push(unit);
    if units.len() == 0 {
        assert(longer.first() == unit);
        assert(longer.drop_first() =~= Seq::<NalUnitView>::empty());
        assert(avcc_encoding(longer.drop_first(), width) =~= Seq::<u8>::empty());
        assert(avcc_encoding(units, width) =~= Seq::<u8>::empty());
        assert(avcc_encoding(longer, width) =~= avcc_encoding(units, width) + length_field(
            width,
            unit.data.len() as int,
        ) + unit.data);
    } else {
        assert(longer.first() == units.first());
        assert(longer.drop_first() =~= units.drop_first().push(unit));
        lemma_encoding_push(units.drop_first(), unit, width);
        assert(avcc_encoding(longer, width) =~= avcc_encoding(units, width) + length_field(
            width,
            unit.data.len() as int,
        ) + unit.data);
    }
}

/// What the muxer writes for a frame, the parser reads back: the payload of
/// a frame whose units are well formed for 4-byte lengths parses into the
/// frame's coded slices.
pub proof fn lemma_payload_parses_back(units: Seq<NalUnitView>)
    requires
        well_formed_units(units, 4),
    ensures
        parse_avcc(sample_payload(units), 4) == Ok::<Seq<NalUnitView>, NalError>(slices_of(units)),
{
    lemma_payload_is_encoding(units);
    let slices = slices_of(units);
    assert forall|i: int| 0 <= i < slices.len() implies well_formed_unit(
        #[trigger] slices[i],
        4,
    ) by {
        units.lemma_filter_contains_rev(|unit: NalUnitView| unit.is_slice(), slices[i]);
        let j = choose|j: int| 0 <= j < units.len() && units[j] == slices[i];
        assert(well_formed_unit(units[j], 4));
    }
    lemma_round_trip(slices, 4);
}

} // verus!
