//! Reading boxes back out of a buffer.
//!
//! `boxes_between` walks a range of a buffer the way a player does: it reads
//! a size and a type, skips the declared size, and starts over. The walk
//! succeeds only if the declared sizes tile the range exactly, without gap or
//! overlap. The facts about whole segments are stated over this walk, so
//! that they do not rest on the layout functions that the writers follow.

use vstd::prelude::*;
use super::be_bytes::{be32, be_value, lemma_be32_value, low32};
use super::boxes::{BoxContent, boxed, header_len};

verus! {

/// A box within a buffer.
pub struct BoxSpan {
    /// The four bytes of the box type.
    pub kind: Seq<u8>,
    /// Offset of the first byte of the box, which starts its size field.
    pub start: int,
    /// Offset one past the last byte of the box.
    pub end: int,
}

impl BoxSpan {
    /// Offset of the first byte after the header.
    pub open spec fn payload_start(self) -> int {
        self.start + header_len()
    }

    /// The bytes of the box after its header.
    pub open spec fn payload(self, bytes: Seq<u8>) -> Seq<u8> {
        bytes.subrange(self.payload_start(), self.end)
    }
}

/// The number in the 32-bit field at `at`.
pub open spec fn u32_at(bytes: Seq<u8>, at: int) -> int {
    be_value(bytes.subrange(at, at + 4)) as int
}

/// One more box in front of a walk.
pub open spec fn span_then(first: BoxSpan, rest: Option<Seq<BoxSpan>>) -> Option<Seq<BoxSpan>> {
    match rest {
        Some(more) => Some(seq![first] + more),
        None => None,
    }
}

/// The boxes that lie one after the other in `bytes[at..end]`, or `None`
/// where the declared sizes do not tile that range exactly: a header that
/// does not fit, a size below that of a header, or a box that crosses `end`.
pub open spec fn boxes_between(bytes: Seq<u8>, at: int, end: int) -> Option<Seq<BoxSpan>>
    decreases end - at,
{
    if at == end {
        Some(Seq::empty())
    } else if at < 0 || end > bytes.len() || at + header_len() > end {
        None
    } else {
        let size = u32_at(bytes, at);
        if size < header_len() || at + size > end {
            None
        } else {
            span_then(
                BoxSpan { kind: bytes.subrange(at + 4, at + 8), start: at, end: at + size },
                boxes_between(bytes, at + size, end),
            )
        }
    }
}

/// The top-level boxes of a buffer.
pub open spec fn top_level_boxes(bytes: Seq<u8>) -> Option<Seq<BoxSpan>> {
    boxes_between(bytes, 0, bytes.len() as int)
}

/// A box is as long as its header and its payload.
pub proof fn lemma_boxed_len(kind: Seq<u8>, payload: Seq<u8>)
    requires
        kind.len() == 4,
    ensures
        boxed(kind, payload).len() == header_len() + payload.len(),
{
}

/// A part of a part of a buffer lies where the two offsets add up to.
pub proof fn lemma_part_position(bytes: Seq<u8>, at: int, whole: Seq<u8>, from: int, to: int)
    requires
        0 <= at,
        at + whole.len() <= bytes.len(),
        bytes.subrange(at, at + whole.len()) == whole,
        0 <= from <= to <= whole.len(),
    ensures
        bytes.subrange(at + from, at + to) == whole.subrange(from, to),
{
    assert(bytes.subrange(at + from, at + to) =~= bytes.subrange(at, at + whole.len()).subrange(
        from,
        to,
    ));
}

/// The payload of a box that lies at `at` in a buffer lies behind the
/// header of the box.
pub proof fn lemma_payload_position(bytes: Seq<u8>, at: int, content: BoxContent)
    requires
        content.kind.len() == 4,
        0 <= at,
        at + content.bytes().len() <= bytes.len(),
        bytes.subrange(at, at + content.bytes().len()) == content.bytes(),
    ensures
        content.bytes().len() == header_len() + content.payload.len(),
        bytes.subrange(at + header_len(), at + header_len() + content.payload.len())
            == content.payload,
{
    lemma_boxed_len(content.kind, content.payload);
    let whole = content.bytes();
    lemma_part_position(bytes, at, whole, header_len(), whole.len() as int);
    assert(whole.subrange(header_len(), whole.len() as int) =~= content.payload);
}

/// Where a box of less than 2^32 bytes stands at `at`, the walk finds it
/// there, with its type and its whole length, and goes on behind it.
pub proof fn lemma_walk_over_box(
    bytes: Seq<u8>,
    at: int,
    end: int,
    kind: Seq<u8>,
    payload: Seq<u8>,
)
    requires
        kind.len() == 4,
        header_len() + payload.len() < 0x1_0000_0000,
        0 <= at,
        at + header_len() + payload.len() <= end <= bytes.len(),
        bytes.subrange(at, at + header_len() + payload.len()) == boxed(kind, payload),
    ensures
        boxes_between(bytes, at, end) == span_then(
            BoxSpan { kind, start: at, end: at + header_len() + payload.len() },
            boxes_between(bytes, at + header_len() + payload.len(), end),
        ),
        (BoxSpan { kind, start: at, end: at + header_len() + payload.len() }).payload(bytes)
            == payload,
{
    let size = header_len() + payload.len();
    let whole = bytes.subrange(at, at + size);
    lemma_be32_value(size);
    assert(low32(size) == size);
    assert(bytes.subrange(at, at + 4) =~= whole.subrange(0, 4));
    assert(whole.subrange(0, 4) =~= be32(size));
    assert(bytes.subrange(at + 4, at + 8) =~= whole.subrange(4, 8));
    assert(whole.subrange(4, 8) =~= kind);
    assert(bytes.subrange(at + 8, at + size) =~= whole.subrange(8, size));
    assert(whole.subrange(8, size) =~= payload);
}

/// Boxes written one after the other.
pub open spec fn box_sequence(items: Seq<BoxContent>) -> Seq<u8>
    decreases items.len(),
{
    if items.len() == 0 {
        Seq::empty()
    } else {
        items.first().bytes() + box_sequence(items.drop_first())
    }
}

/// Where boxes written one after the other from `at` on come to lie.
pub open spec fn spans_from(items: Seq<BoxContent>, at: int) -> Seq<BoxSpan>
    decreases items.len(),
{
    if items.len() == 0 {
        Seq::empty()
    } else {
        seq![
            BoxSpan {
                kind: items.first().kind,
                start: at,
                end: at + header_len() + items.first().payload.len(),
            },
        ] + spans_from(items.drop_first(), at + header_len() + items.first().payload.len())
    }
}

/// The spans of a walk lie where the boxes were written, in their order.
pub proof fn lemma_spans_from(items: Seq<BoxContent>, at: int)
    requires
        forall|i: int| 0 <= i < items.len() ==> (#[trigger] items[i]).kind.len() == 4,
    ensures
        spans_from(items, at).len() == items.len(),
        forall|i: int|
            0 <= i < items.len() ==> {
                &&& (#[trigger] spans_from(items, at)[i]).kind == items[i].kind
                &&& spans_from(items, at)[i].start == at + box_sequence(items.take(i)).len()
                &&& spans_from(items, at)[i].end == spans_from(items, at)[i].start
                    + header_len() + items[i].payload.len()
            },
    decreases items.len(),
{
    if items.len() > 0 {
        let first = items.first();
        let rest = items.drop_first();
        let next = at + header_len() + first.payload.len();
        assert forall|i: int| 0 <= i < rest.len() implies (#[trigger] rest[i]).kind.len()
            == 4 by {
            assert(rest[i] == items[i + 1]);
        }
        lemma_spans_from(rest, next);
        lemma_boxed_len(first.kind, first.payload);
        assert forall|i: int| 0 <= i < items.len() implies {
            &&& (#[trigger] spans_from(items, at)[i]).kind == items[i].kind
            &&& spans_from(items, at)[i].start == at + box_sequence(items.take(i)).len()
            &&& spans_from(items, at)[i].end == spans_from(items, at)[i].start + header_len()
                + items[i].payload.len()
        } by {
            if i == 0 {
                assert(items.take(0) =~= Seq::<BoxContent>::empty());
            } else {
                assert(spans_from(items, at)[i] == spans_from(rest, next)[i - 1]);
                assert(items.take(i).drop_first() =~= rest.take(i - 1));
                assert(items.take(i).first() == first);
                assert(rest[i - 1] == items[i]);
            }
        }
    }
}

/// Boxes that were written one after the other are found again by the walk:
/// where each of them is smaller than 2^32 bytes, walking the range they
/// fill gives exactly these boxes, each where it was written.
pub proof fn lemma_walk_over_sequence(bytes: Seq<u8>, at: int, items: Seq<BoxContent>)
    requires
        0 <= at,
        at + box_sequence(items).len() <= bytes.len(),
        bytes.subrange(at, at + box_sequence(items).len()) == box_sequence(items),
        forall|i: int| 0 <= i < items.len() ==> (#[trigger] items[i]).fits(),
    ensures
        boxes_between(bytes, at, at + box_sequence(items).len()) == Some(spans_from(items, at)),
        forall|i: int|
            0 <= i < items.len() ==> (#[trigger] spans_from(items, at)[i]).payload(bytes)
                == items[i].payload,
    decreases items.len(),
{
    let end = at + box_sequence(items).len();
    if items.len() > 0 {
        let first = items.first();
        let rest = items.drop_first();
        let size = header_len() + first.payload.len();
        let all = box_sequence(items);
        assert(first.fits());
        lemma_boxed_len(first.kind, first.payload);
        assert(bytes.subrange(at, at + size) =~= all.subrange(0, size));
        assert(all.subrange(0, size) =~= first.bytes());
        lemma_walk_over_box(bytes, at, end, first.kind, first.payload);
        assert(bytes.subrange(at + size, end) =~= all.subrange(size, all.len() as int));
        assert(all.subrange(size, all.len() as int) =~= box_sequence(rest));
        assert forall|i: int| 0 <= i < rest.len() implies (#[trigger] rest[i]).fits() by {
            assert(rest[i] == items[i + 1]);
        }
        lemma_walk_over_sequence(bytes, at + size, rest);
        lemma_spans_from(rest, at + size);
        assert forall|i: int| 0 <= i < items.len() implies (#[trigger] spans_from(
            items,
            at,
        )[i]).payload(bytes) == items[i].payload by {
            if i > 0 {
                assert(spans_from(items, at)[i] == spans_from(rest, at + size)[i - 1]);
                assert(rest[i - 1] == items[i]);
            }
        }
    }
}

/// Boxes that were written one after the other into a box that lies at `at`
/// in a buffer, behind the first `skip` bytes of that box's payload, are
/// found again by the walk over that part of the buffer.
pub proof fn lemma_walk_inside_box(
    bytes: Seq<u8>,
    at: int,
    container: BoxContent,
    skip: int,
    items: Seq<BoxContent>,
)
    requires
        container.kind.len() == 4,
        0 <= at,
        at + container.bytes().len() <= bytes.len(),
        bytes.subrange(at, at + container.bytes().len()) == container.bytes(),
        0 <= skip <= container.payload.len(),
        container.payload.subrange(skip, container.payload.len() as int) == box_sequence(items),
        forall|i: int| 0 <= i < items.len() ==> (#[trigger] items[i]).fits(),
    ensures
        boxes_between(bytes, at + header_len() + skip, at + container.bytes().len()) == Some(
            spans_from(items, at + header_len() + skip),
        ),
        forall|i: int|
            0 <= i < items.len() ==> (#[trigger] spans_from(
                items,
                at + header_len() + skip,
            )[i]).payload(bytes) == items[i].payload,
{
    lemma_boxed_len(container.kind, container.payload);
    let whole = container.bytes();
    let from = at + header_len() + skip;
    let inner = box_sequence(items);
    assert(bytes.subrange(from, from + inner.len()) =~= whole.subrange(
        header_len() + skip,
        whole.len() as int,
    ));
    assert(whole.subrange(header_len() + skip, whole.len() as int)
        =~= container.payload.subrange(skip, container.payload.len() as int));
    lemma_walk_over_sequence(bytes, from, items);
}

/// The walk over one box.
pub proof fn lemma_spans_of_one(a: BoxContent, at: int)
    ensures
        box_sequence(seq![a]) == a.bytes(),
        spans_from(seq![a], at) == seq![
            BoxSpan { kind: a.kind, start: at, end: at + header_len() + a.payload.len() },
        ],
{
    reveal_with_fuel(box_sequence, 2);
    reveal_with_fuel(spans_from, 2);
    let items = seq![a];
    assert(items.drop_first() =~= Seq::<BoxContent>::empty());
    assert(box_sequence(items) =~= a.bytes());
    assert(spans_from(items, at) =~= seq![
        BoxSpan { kind: a.kind, start: at, end: at + header_len() + a.payload.len() },
    ]);
}

/// The walk over two boxes.
pub proof fn lemma_spans_of_two(a: BoxContent, b: BoxContent, at: int)
    ensures
        box_sequence(seq![a, b]) == a.bytes() + b.bytes(),
        spans_from(seq![a, b], at) == seq![
            BoxSpan { kind: a.kind, start: at, end: at + header_len() + a.payload.len() },
            BoxSpan {
                kind: b.kind,
                start: at + header_len() + a.payload.len(),
                end: at + header_len() + a.payload.len() + header_len() + b.payload.len(),
            },
        ],
{
    reveal_with_fuel(box_sequence, 3);
    reveal_with_fuel(spans_from, 3);
    let items = seq![a, b];
    assert(items.drop_first() =~= seq![b]);
    assert(items.drop_first().drop_first() =~= Seq::<BoxContent>::empty());
    assert(box_sequence(items) =~= a.bytes() + b.bytes());
    assert(spans_from(items, at) =~= seq![
        BoxSpan { kind: a.kind, start: at, end: at + header_len() + a.payload.len() },
        BoxSpan {
            kind: b.kind,
            start: at + header_len() + a.payload.len(),
            end: at + header_len() + a.payload.len() + header_len() + b.payload.len(),
        },
    ]);
}

/// The walk over three boxes.
pub proof fn lemma_spans_of_three(a: BoxContent, b: BoxContent, c: BoxContent, at: int)
    ensures
        box_sequence(seq![a, b, c]) == a.bytes() + b.bytes() + c.bytes(),
        spans_from(seq![a, b, c], at) == seq![
            BoxSpan { kind: a.kind, start: at, end: at + header_len() + a.payload.len() },
            BoxSpan {
                kind: b.kind,
                start: at + header_len() + a.payload.len(),
                end: at + header_len() + a.payload.len() + header_len() + b.payload.len(),
            },
            BoxSpan {
                kind: c.kind,
                start: at + header_len() + a.payload.len() + header_len() + b.payload.len(),
                end: at + header_len() + a.payload.len() + header_len() + b.payload.len()
                    + header_len() + c.payload.len(),
            },
        ],
{
    reveal_with_fuel(box_sequence, 4);
    reveal_with_fuel(spans_from, 4);
    let items = seq![a, b, c];
    assert(items.drop_first() =~= seq![b, c]);
    assert(items.drop_first().drop_first() =~= seq![c]);
    assert(items.drop_first().drop_first().drop_first() =~= Seq::<BoxContent>::empty());
    assert(box_sequence(items) =~= a.bytes() + b.bytes() + c.bytes());
    assert(spans_from(items, at) =~= seq![
        BoxSpan { kind: a.kind, start: at, end: at + header_len() + a.payload.len() },
        BoxSpan {
            kind: b.kind,
            start: at + header_len() + a.payload.len(),
            end: at + header_len() + a.payload.len() + header_len() + b.payload.len(),
        },
        BoxSpan {
            kind: c.kind,
            start: at + header_len() + a.payload.len() + header_len() + b.payload.len(),
            end: at + header_len() + a.payload.len() + header_len() + b.payload.len()
                + header_len() + c.payload.len(),
        },
    ]);
}

} // verus!
