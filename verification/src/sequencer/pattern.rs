//! A pattern contains 16 tracks (one per pad)

use vstd::prelude::*;
use crate::sequencer::track::{spec_clamp_length, SequencerTrack, MAX_STEPS};
use crate::util::text::{append_decimal_2, spec_decimal_2};

verus! {

/// A pattern contains 16 tracks (one per pad)
pub struct Pattern {
    pub index: usize,
    pub name: String,
    pub tracks: [SequencerTrack; 16],
}

/// Name of the pattern at `index`: "Pattern " and its number counted from 1,
/// with at least two digits.
pub open spec fn spec_pattern_name(index: usize) -> Seq<char> {
    "Pattern "@ + spec_decimal_2(index as nat + 1)
}

/// A track with at least one step that holds a trigger.
pub open spec fn spec_track_has_active_step(t: SequencerTrack) -> bool {
    exists|j: int| 0 <= j < t.steps@.len() && #[trigger] t.steps@[j]
}

/// Track `t` is well formed and drives pad `i`.
pub open spec fn spec_track_wf_at(t: SequencerTrack, i: int) -> bool {
    t.wf() && t.pad_index == i
}

/// Two tracks agree on everything but their steps, length and playback
/// position: pad, playing, mute, solo, name, tick count and open gates.
pub open spec fn spec_same_track_state(a: SequencerTrack, b: SequencerTrack) -> bool {
    &&& a.pad_index == b.pad_index
    &&& a.is_playing == b.is_playing
    &&& a.muted == b.muted
    &&& a.solo == b.solo
    &&& a.name == b.name
    &&& a.tick_accumulator == b.tick_accumulator
    &&& a.active_gates@ == b.active_gates@
}

/// The pad indices 0 to 15.
pub open spec fn spec_pad_indices() -> Seq<usize> {
    Seq::new(16, |i: int| i as usize)
}

pub open spec fn active_pad_pred(p: &Pattern) -> spec_fn(usize) -> bool {
    |i: usize| spec_track_has_active_step(p.tracks@[i as int])
}

/// The pads whose track holds at least one triggering step, in order.
pub open spec fn spec_active_pads(p: &Pattern) -> Seq<usize> {
    spec_pad_indices().filter(active_pad_pred(p))
}

fn track_has_active_step(t: &SequencerTrack) -> (b: bool)
    ensures
        b == spec_track_has_active_step(*t),
{
    let n = t.steps.len();
    for j in 0..n
        invariant
            n == t.steps@.len(),
            forall|k: int| 0 <= k < j ==> !#[trigger] t.steps@[k],
    {
        if t.steps[j] {
            return true;
        }
    }
    false
}

impl Pattern {
    /// Every track has all its steps and a playback position within its
    /// length, and track `i` drives pad `i`.
    pub open spec fn wf(&self) -> bool {
        forall|i: int| 0 <= i < 16 ==> spec_track_wf_at(#[trigger] self.tracks@[i], i)
    }

    pub fn new(index: usize) -> (p: Self)
        requires
            index < usize::MAX,
        ensures
            p.index == index,
            p.name@ == spec_pattern_name(index),
            p.wf(),
            forall|i: int| 0 <= i < 16 ==> #[trigger] p.tracks@[i].length == 16,
            forall|i: int| 0 <= i < 16 ==> !spec_track_has_active_step(#[trigger] p.tracks@[i]),
    {
        let tracks = [
            SequencerTrack::new(0),
            SequencerTrack::new(1),
            SequencerTrack::new(2),
            SequencerTrack::new(3),
            SequencerTrack::new(4),
            SequencerTrack::new(5),
            SequencerTrack::new(6),
            SequencerTrack::new(7),
            SequencerTrack::new(8),
            SequencerTrack::new(9),
            SequencerTrack::new(10),
            SequencerTrack::new(11),
            SequencerTrack::new(12),
            SequencerTrack::new(13),
            SequencerTrack::new(14),
            SequencerTrack::new(15),
        ];
        let mut name = String::from_str("Pattern ");
        append_decimal_2(&mut name, index + 1);
        Pattern { index, name, tracks }
    }

    /// Get a track by pad index
    pub fn get_track(&self, pad_index: usize) -> (t: Option<&SequencerTrack>)
        ensures
            pad_index < 16 ==> t == Some(&self.tracks@[pad_index as int]),
            pad_index >= 16 ==> t is None,
    {
        if pad_index < 16 {
            Some(&self.tracks[pad_index])
        } else {
            None
        }
    }

    /// Get mutable track
    pub fn get_track_mut(&mut self, pad_index: usize) -> (t: Option<&mut SequencerTrack>)
        ensures
            pad_index < 16 ==> {
                &&& t matches Some(r)
                &&& *r == old(self).tracks@[pad_index as int]
                &&& final(self).tracks@ == old(self).tracks@.update(pad_index as int, *final(r))
                &&& final(self).index == old(self).index
                &&& final(self).name == old(self).name
            },
            pad_index >= 16 ==> t is None && *final(self) == *old(self),
    {
        if pad_index < 16 {
            Some(&mut self.tracks[pad_index])
        } else {
            None
        }
    }

    /// Set all tracks to the same length
    pub fn set_length(&mut self, length: usize)
        ensures
            forall|i: int|
                0 <= i < 16 ==> {
                    &&& #[trigger] final(self).tracks@[i].length == spec_clamp_length(length)
                    &&& final(self).tracks@[i].current_step == if old(self).tracks@[i].current_step
                        >= spec_clamp_length(length) {
                        0
                    } else {
                        old(self).tracks@[i].current_step
                    }
                    &&& final(self).tracks@[i].steps == old(self).tracks@[i].steps
                    &&& spec_same_track_state(final(self).tracks@[i], old(self).tracks@[i])
                },
            final(self).index == old(self).index,
            final(self).name == old(self).name,
            old(self).wf() ==> final(self).wf(),
    {
        for i in 0..16usize
            invariant
                self.index == old(self).index,
                self.name == old(self).name,
                forall|j: int| i <= j < 16 ==> #[trigger] self.tracks@[j] == old(self).tracks@[j],
                forall|j: int|
                    0 <= j < i ==> {
                        &&& #[trigger] self.tracks@[j].length == spec_clamp_length(length)
                        &&& self.tracks@[j].current_step == if old(self).tracks@[j].current_step
                            >= spec_clamp_length(length) {
                            0
                        } else {
                            old(self).tracks@[j].current_step
                        }
                        &&& self.tracks@[j].steps == old(self).tracks@[j].steps
                        &&& spec_same_track_state(self.tracks@[j], old(self).tracks@[j])
                        &&& (old(self).tracks@[j].steps@.len() == MAX_STEPS ==> self.tracks@[j].wf())
                    },
        {
            self.tracks[i].set_length(length);
        }
        proof {
            if old(self).wf() {
                assert forall|j: int| 0 <= j < 16 implies spec_track_wf_at(#[trigger] self.tracks@[j], j) by {
                    assert(spec_track_wf_at(old(self).tracks@[j], j));
                    assert(self.tracks@[j].length == spec_clamp_length(length));
                }
            }
        }
    }

    /// Get the common length (the first track's length)
    pub fn length(&self) -> (l: usize)
        ensures
            l == self.tracks@[0].length,
    {
        self.tracks[0].length
    }

    /// Clear all tracks: no step holds a trigger and every track is back at
    /// its first step.
    pub fn clear(&mut self)
        ensures
            forall|i: int|
                0 <= i < 16 ==> {
                    &&& #[trigger] final(self).tracks@[i].steps@ == Seq::new(
                        old(self).tracks@[i].steps@.len(),
                        |j: int| false,
                    )
                    &&& final(self).tracks@[i].current_step == 0
                    &&& final(self).tracks@[i].length == old(self).tracks@[i].length
                    &&& spec_same_track_state(final(self).tracks@[i], old(self).tracks@[i])
                },
            final(self).index == old(self).index,
            final(self).name == old(self).name,
            old(self).wf() ==> final(self).wf(),
    {
        for i in 0..16usize
            invariant
                self.index == old(self).index,
                self.name == old(self).name,
                forall|j: int| i <= j < 16 ==> #[trigger] self.tracks@[j] == old(self).tracks@[j],
                forall|j: int|
                    0 <= j < i ==> {
                        &&& #[trigger] self.tracks@[j].steps@ == Seq::new(
                            old(self).tracks@[j].steps@.len(),
                            |k: int| false,
                        )
                        &&& self.tracks@[j].current_step == 0
                        &&& self.tracks@[j].length == old(self).tracks@[j].length
                        &&& spec_same_track_state(self.tracks@[j], old(self).tracks@[j])
                        &&& (old(self).tracks@[j].wf() ==> self.tracks@[j].wf())
                    },
        {
            self.tracks[i].clear();
        }
        proof {
            if old(self).wf() {
                assert forall|j: int| 0 <= j < 16 implies spec_track_wf_at(#[trigger] self.tracks@[j], j) by {
                    assert(spec_track_wf_at(old(self).tracks@[j], j));
                    assert(self.tracks@[j].steps@ == Seq::new(
                        old(self).tracks@[j].steps@.len(),
                        |k: int| false,
                    ));
                }
            }
        }
    }

    /// Copy the tracks of another pattern (index and name stay).
    pub fn copy_from(&mut self, other: &Pattern)
        ensures
            final(self).index == old(self).index,
            final(self).name == old(self).name,
            forall|i: int|
                0 <= i < 16 ==> {
                    &&& #[trigger] final(self).tracks@[i].steps@ == other.tracks@[i].steps@
                    &&& final(self).tracks@[i].length == other.tracks@[i].length
                    &&& final(self).tracks@[i].current_step == other.tracks@[i].current_step
                    &&& spec_same_track_state(final(self).tracks@[i], other.tracks@[i])
                },
            other.wf() ==> final(self).wf(),
    {
        for i in 0..16usize
            invariant
                self.index == old(self).index,
                self.name == old(self).name,
                forall|j: int|
                    0 <= j < i ==> {
                        &&& #[trigger] self.tracks@[j].steps@ == other.tracks@[j].steps@
                        &&& self.tracks@[j].length == other.tracks@[j].length
                        &&& self.tracks@[j].current_step == other.tracks@[j].current_step
                        &&& spec_same_track_state(self.tracks@[j], other.tracks@[j])
                    },
        {
            let ghost prev = self.tracks@;
            self.tracks[i] = other.tracks[i].clone();
            proof {
                assert forall|j: int| 0 <= j < i implies #[trigger] self.tracks@[j] == prev[j] by {}
                assert forall|j: int| 0 <= j < i implies #[trigger] prev[j].steps@ == other.tracks@[j].steps@ by {}
                assert(spec_same_track_state(self.tracks@[i as int], other.tracks@[i as int]));
            }
        }
        proof {
            if other.wf() {
                assert forall|j: int| 0 <= j < 16 implies spec_track_wf_at(#[trigger] self.tracks@[j], j) by {
                    assert(spec_track_wf_at(other.tracks@[j], j));
                    assert(self.tracks@[j].steps@ == other.tracks@[j].steps@);
                }
            }
        }
    }

    /// Get active pads in this pattern: the pads whose track holds at least
    /// one triggering step, in increasing order.
    pub fn active_pads(&self) -> (pads: Vec<usize>)
        ensures
            pads@ == spec_active_pads(self),
    {
        let mut pads: Vec<usize> = Vec::new();
        for i in 0..16usize
            invariant
                pads@ == spec_pad_indices().take(i as int).filter(active_pad_pred(self)),
        {
            proof {
                assert(spec_pad_indices().take(i + 1) =~= spec_pad_indices().take(i as int).push(i));
                spec_pad_indices().take(i as int).lemma_filter_push(i, active_pad_pred(self));
            }
            if track_has_active_step(&self.tracks[i]) {
                pads.push(i);
            }
        }
        proof {
            assert(spec_pad_indices().take(16) =~= spec_pad_indices());
        }
        pads
    }
}

impl Default for Pattern {
    fn default() -> (p: Self)
        ensures
            p.index == 0,
            p.name@ == spec_pattern_name(0),
            p.wf(),
    {
        Self::new(0)
    }
}

} // verus!

