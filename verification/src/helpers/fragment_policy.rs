//! Where the muxer closes fragments.
//!
//! The muxer is a state machine over `MuxerState`. The facts here follow a
//! whole stream of frames through that machine: which fragments come out,
//! in which order, and what they hold.

use vstd::prelude::*;
use super::boxes::media_segment;
use super::cmaf_muxer::{CmafConfig, elapsed_ms, MuxerState, Sample, VIDEO_TRACK_ID};

verus! {

/// A frame as the muxer takes it in: the sample it becomes, and its decode
/// time.
pub struct Submission {
    pub dts: i64,
    pub sample: Sample,
}

/// The state after a list of frames was submitted, one after the other.
pub open spec fn submit_all(state: MuxerState, frames: Seq<Submission>) -> MuxerState
    decreases frames.len(),
{
    if frames.len() == 0 {
        state
    } else {
        submit_all(state, frames.drop_last()).after_frame(frames.last().dts, frames.last().sample)
    }
}

/// The segments that came out while a list of frames was submitted, in the
/// order in which they came out.
pub open spec fn emitted_by_all(state: MuxerState, frames: Seq<Submission>) -> Seq<Seq<u8>>
    decreases frames.len(),
{
    if frames.len() == 0 {
        Seq::empty()
    } else {
        let before = submit_all(state, frames.drop_last());
        let so_far = emitted_by_all(state, frames.drop_last());
        match before.emitted_by_frame(frames.last().dts, frames.last().sample) {
            Some(segment) => so_far.push(segment),
            None => so_far,
        }
    }
}

/// The samples of a list of frames.
pub open spec fn samples_of(frames: Seq<Submission>) -> Seq<Sample> {
    frames.map_values(|frame: Submission| frame.sample)
}

/// The frames of a list of groups, group after group.
pub open spec fn all_frames(groups: Seq<Seq<Submission>>) -> Seq<Submission>
    decreases groups.len(),
{
    if groups.len() == 0 {
        Seq::empty()
    } else {
        all_frames(groups.drop_last()) + groups.last()
    }
}

/// Whether a frame closes a fragment that began at `base_dts`: it is a
/// keyframe and the target duration has passed.
pub open spec fn closes_fragment(config: CmafConfig, base_dts: i64, frame: Submission) -> bool {
    frame.sample.is_sync && elapsed_ms(base_dts, frame.dts, config.timescale)
        >= config.fragment_duration_ms
}

/// Groups of frames that are aligned to keyframes for a configuration: no
/// group is empty, no frame behind the first of its group closes the
/// fragment that the first one began, and the first frame of every group but
/// the first closes the fragment that the group before began.
pub open spec fn keyframe_aligned(config: CmafConfig, groups: Seq<Seq<Submission>>) -> bool {
    &&& forall|g: int| 0 <= g < groups.len() ==> (#[trigger] groups[g]).len() > 0
    &&& forall|g: int, j: int|
        0 <= g < groups.len() && 1 <= j < groups[g].len() ==> !closes_fragment(
            config,
            groups[g][0].dts,
            #[trigger] groups[g][j],
        )
    &&& forall|g: int|
        1 <= g < groups.len() ==> closes_fragment(
            config,
            groups[g - 1][0].dts,
            (#[trigger] groups[g])[0],
        )
}

/// The media segment of group `index`, where the first group has the
/// sequence number `first_sequence_number`.
pub open spec fn group_segment(
    first_sequence_number: u32,
    groups: Seq<Seq<Submission>>,
    index: int,
) -> Seq<u8> {
    media_segment(
        (first_sequence_number + index) as u32,
        VIDEO_TRACK_ID,
        groups[index][0].dts,
        samples_of(groups[index]),
    )
}

/// The first sample of a fragment never closes it, keyframe or not: a
/// frame that finds no sample pending emits nothing and becomes the first
/// sample of the open fragment, whose base decode time is the frame's.
/// Whenever a frame does emit a segment, samples were pending, the frame
/// is a keyframe, and the target duration has passed since the first of
/// the pending samples.
pub proof fn lemma_first_sample_never_flushes(state: MuxerState, dts: i64, sample: Sample)
    ensures
        state.pending.len() == 0 ==> state.emitted_by_frame(dts, sample) is None,
        state.pending.len() == 0 && state.initialized ==> state.after_frame(dts, sample).pending
            == seq![sample] && state.after_frame(dts, sample).fragment_base_dts == dts
            && state.after_frame(dts, sample).sequence_number == state.sequence_number,
        state.emitted_by_frame(dts, sample) is Some ==> state.initialized && state.pending.len()
            > 0 && sample.is_sync && elapsed_ms(
            state.fragment_base_dts,
            dts,
            state.config.timescale,
        ) >= state.config.fragment_duration_ms,
        state.emitted_by_frame(dts, sample) is Some ==> state.emitted_by_frame(dts, sample)
            == Some(state.fragment()) && state.after_frame(dts, sample).pending == seq![sample],
{
    if state.pending.len() == 0 && state.initialized {
        assert(state.after_frame(dts, sample).pending =~= seq![sample]);
    }
    if state.emitted_by_frame(dts, sample) is Some {
        assert(state.after_frame(dts, sample).pending =~= seq![sample]);
    }
}

/// No frame is pending and no segment comes out before the initialization
/// segment was created, and every operation keeps it so: a muxer that is
/// valid stays valid, and while it is not initialized it drops frames and
/// emits nothing, on a frame as on a flush.
pub proof fn lemma_nothing_before_initialization(
    state: MuxerState,
    dts: i64,
    sample: Sample,
    sps: Seq<u8>,
    pps: Seq<u8>,
    width: u32,
    height: u32,
)
    requires
        state.valid(),
    ensures
        MuxerState::fresh(state.config).valid(),
        !MuxerState::fresh(state.config).initialized,
        state.after_frame(dts, sample).valid(),
        state.after_flush().valid(),
        state.initialize(sps, pps, width, height).valid(),
        !state.initialized ==> state.after_frame(dts, sample) == state && state.after_flush()
            == state,
        !state.initialized ==> state.emitted_by_frame(dts, sample) is None
            && state.emitted_by_flush() is None,
{
}

/// The sequence number counts emitted fragments, not frames: it goes up by
/// one with every segment that comes out, on a frame or on a flush, and
/// stays as it is otherwise.
pub proof fn lemma_sequence_number_counts_fragments(state: MuxerState, dts: i64, sample: Sample)
    requires
        state.sequence_number < u32::MAX,
    ensures
        state.after_frame(dts, sample).sequence_number == state.sequence_number + if state.emitted_by_frame(
            dts,
            sample,
        ) is Some {
            1int
        } else {
            0int
        },
        state.after_flush().sequence_number == state.sequence_number + if state.emitted_by_flush() is Some {
            1int
        } else {
            0int
        },
{
}

/// Submitting two lists of frames one after the other is submitting their
/// concatenation.
pub proof fn lemma_submit_concat(state: MuxerState, first: Seq<Submission>, second: Seq<Submission>)
    ensures
        submit_all(state, first + second) == submit_all(submit_all(state, first), second),
        emitted_by_all(state, first + second) == emitted_by_all(state, first) + emitted_by_all(
            submit_all(state, first),
            second,
        ),
    decreases second.len(),
{
    if second.len() == 0 {
        assert(first + second =~= first);
        assert(emitted_by_all(state, first) + emitted_by_all(submit_all(state, first), second)
            =~= emitted_by_all(state, first));
    } else {
        let both = first + second;
        assert(both.drop_last() =~= first + second.drop_last());
        assert(both.last() == second.last());
        lemma_submit_concat(state, first, second.drop_last());
        let middle = submit_all(state, first);
        let before = submit_all(middle, second.drop_last());
        match before.emitted_by_frame(second.last().dts, second.last().sample) {
            Some(segment) => {
                assert(emitted_by_all(state, both) =~= emitted_by_all(state, first)
                    + emitted_by_all(middle, second));
            },
            None => {},
        }
    }
}

/// One group of frames, submitted to a muxer that either has nothing
/// pending or closes its fragment on the first frame of the group: behind
/// the group, exactly the samples of the group are pending, and what came
/// out is the fragment that was open before, if there was one.
pub proof fn lemma_submit_group(state: MuxerState, group: Seq<Submission>)
    requires
        state.initialized,
        group.len() > 0,
        state.pending.len() == 0 || state.crosses_boundary(group[0].dts, group[0].sample.is_sync),
        state.pending.len() > 0 ==> state.sequence_number < u32::MAX,
        forall|j: int|
            1 <= j < group.len() ==> !closes_fragment(
                state.config,
                group[0].dts,
                #[trigger] group[j],
            ),
    ensures
        submit_all(state, group) == (MuxerState {
            pending: samples_of(group),
            fragment_base_dts: group[0].dts,
            last_dts: group.last().dts,
            sequence_number: if state.pending.len() == 0 {
                state.sequence_number
            } else {
                (state.sequence_number + 1) as u32
            },
            ..state
        }),
        emitted_by_all(state, group) == if state.pending.len() == 0 {
            Seq::<Seq<u8>>::empty()
        } else {
            seq![state.fragment()]
        },
    decreases group.len(),
{
    let head = group[0];
    if group.len() == 1 {
        assert(group.drop_last() =~= Seq::<Submission>::empty());
        assert(submit_all(state, group.drop_last()) == state);
        assert(submit_all(state, group) == state.after_frame(head.dts, head.sample));
        assert(state.after_frame(head.dts, head.sample).pending =~= samples_of(group));
        assert(emitted_by_all(state, group.drop_last()) =~= Seq::<Seq<u8>>::empty());
        if state.pending.len() > 0 {
            assert(emitted_by_all(state, group) =~= seq![state.fragment()]);
        }
    } else {
        let front = group.drop_last();
        let last = group.last();
        assert(front[0] == head);
        assert forall|j: int| 1 <= j < front.len() implies !closes_fragment(
            state.config,
            front[0].dts,
            #[trigger] front[j],
        ) by {
            assert(front[j] == group[j]);
        }
        lemma_submit_group(state, front);
        let before = submit_all(state, front);
        assert(before.pending.len() == front.len());
        assert(!closes_fragment(state.config, head.dts, group[group.len() - 1]));
        assert(!before.crosses_boundary(last.dts, last.sample.is_sync));
        assert(before.after_frame(last.dts, last.sample).pending =~= samples_of(group));
    }
}

/// Groups of frames that are aligned to keyframes, submitted to a muxer
/// that is initialized and has nothing pending: behind the last group its
/// samples are pending, and every group before it has come out as one
/// segment.
pub proof fn lemma_submit_groups(state: MuxerState, groups: Seq<Seq<Submission>>)
    requires
        state.initialized,
        state.pending.len() == 0,
        groups.len() >= 1,
        keyframe_aligned(state.config, groups),
        state.sequence_number + groups.len() <= u32::MAX,
    ensures
        submit_all(state, all_frames(groups)) == (MuxerState {
            pending: samples_of(groups.last()),
            fragment_base_dts: groups.last()[0].dts,
            last_dts: groups.last().last().dts,
            sequence_number: (state.sequence_number + groups.len() - 1) as u32,
            ..state
        }),
        emitted_by_all(state, all_frames(groups)).len() == groups.len() - 1,
        forall|i: int|
            0 <= i < groups.len() - 1 ==> #[trigger] emitted_by_all(state, all_frames(groups))[i]
                == group_segment(state.sequence_number, groups, i),
    decreases groups.len(),
{
    let last = groups.last();
    let earlier = groups.drop_last();
    assert(last == groups[groups.len() - 1]);
    if groups.len() == 1 {
        assert(all_frames(earlier) =~= Seq::<Submission>::empty());
        assert(all_frames(groups) =~= last);
        assert forall|j: int| 1 <= j < last.len() implies !closes_fragment(
            state.config,
            last[0].dts,
            #[trigger] last[j],
        ) by {
            assert(!closes_fragment(state.config, groups[0][0].dts, groups[0][j]));
        }
        lemma_submit_group(state, last);
    } else {
        assert forall|g: int| 0 <= g < earlier.len() implies (#[trigger] earlier[g]).len()
            > 0 by {
            assert(earlier[g] == groups[g]);
        }
        assert forall|g: int, j: int|
            0 <= g < earlier.len() && 1 <= j < earlier[g].len() implies !closes_fragment(
            state.config,
            earlier[g][0].dts,
            #[trigger] earlier[g][j],
        ) by {
            assert(earlier[g] == groups[g]);
            assert(!closes_fragment(state.config, groups[g][0].dts, groups[g][j]));
        }
        assert forall|g: int| 1 <= g < earlier.len() implies closes_fragment(
            state.config,
            earlier[g - 1][0].dts,
            (#[trigger] earlier[g])[0],
        ) by {
            assert(earlier[g] == groups[g]);
            assert(earlier[g - 1] == groups[g - 1]);
        }
        lemma_submit_groups(state, earlier);
        let before = submit_all(state, all_frames(earlier));
        let count = groups.len() as int;
        assert(earlier.last() == groups[count - 2]);
        assert(groups[count - 2].len() > 0);
        assert(before.pending.len() == groups[count - 2].len());
        assert(closes_fragment(state.config, groups[count - 1 - 1][0].dts, groups[count - 1][0]));
        assert(before.crosses_boundary(last[0].dts, last[0].sample.is_sync));
        assert forall|j: int| 1 <= j < last.len() implies !closes_fragment(
            before.config,
            last[0].dts,
            #[trigger] last[j],
        ) by {
            assert(!closes_fragment(
                state.config,
                groups[count - 1][0].dts,
                groups[count - 1][j],
            ));
        }
        lemma_submit_group(before, last);
        lemma_submit_concat(state, all_frames(earlier), last);
        let out = emitted_by_all(state, all_frames(groups));
        let out_before = emitted_by_all(state, all_frames(earlier));
        assert(out =~= out_before + seq![before.fragment()]);
        assert(before.fragment() == group_segment(state.sequence_number, groups, count - 2));
        assert forall|i: int| 0 <= i < groups.len() - 1 implies #[trigger] out[i]
            == group_segment(state.sequence_number, groups, i) by {
            if i < count - 2 {
                assert(out[i] == out_before[i]);
                assert(out_before[i] == group_segment(state.sequence_number, earlier, i));
                assert(earlier[i] == groups[i]);
            }
        }
    }
}

/// A stream of N groups of frames that are aligned to keyframes gives
/// exactly N fragments, one per group.
///
/// The muxer is initialized and has nothing pending, and its sequence
/// number leaves room for N fragments. Then submitting all frames emits the
/// segments of the first N - 1 groups, in order, each when the first frame
/// of the next group comes in, and the final flush emits the segment of the
/// last group and leaves nothing pending. The segment of a group holds the
/// samples of the group and nothing else, its sequence number is that of the
/// first fragment plus the index of the group, and its base decode time is
/// the decode time of the first frame of the group.
pub proof fn lemma_one_fragment_per_group(state: MuxerState, groups: Seq<Seq<Submission>>)
    requires
        state.initialized,
        state.pending.len() == 0,
        groups.len() >= 1,
        keyframe_aligned(state.config, groups),
        state.sequence_number + groups.len() <= u32::MAX,
    ensures
        ({
            let fed = submit_all(state, all_frames(groups));
            let emitted = emitted_by_all(state, all_frames(groups));
            &&& emitted.len() == groups.len() - 1
            &&& forall|i: int|
                0 <= i < groups.len() - 1 ==> #[trigger] emitted[i] == group_segment(
                    state.sequence_number,
                    groups,
                    i,
                )
            &&& fed.emitted_by_flush() == Some(
                group_segment(state.sequence_number, groups, groups.len() - 1),
            )
            &&& fed.after_flush().pending.len() == 0
            &&& fed.after_flush().sequence_number == state.sequence_number + groups.len()
            &&& fed.after_flush().emitted_by_flush() is None
        }),
{
    lemma_submit_groups(state, groups);
    let fed = submit_all(state, all_frames(groups));
    assert(groups.last() == groups[groups.len() - 1]);
    assert(fed.pending.len() == groups.last().len());
}

} // verus!
