//! A sequencer track - the step pattern and playback state of one pad.
//!
//! The track holds which steps trigger and where playback stands; the
//! per-step velocity, probability and ratchet settings (floating point) are
//! kept by the application next to it.

use vstd::prelude::*;
use crate::util::text::{decimal_between, spec_decimal};
use vstd::slice::slice_subrange;

verus! {

/// Number of steps every track holds (the longest pattern).
pub const MAX_STEPS: usize = 64;

/// Steps a new track plays.
pub const DEFAULT_LENGTH: usize = 16;

/// Active gate tracking for release events
#[derive(Debug, Clone, Copy, PartialEq, Eq, Structural)]
pub struct ActiveGate {
    /// When this gate should close (in ticks from start)
    pub end_tick: u64,
    /// Which step created this gate
    pub step_index: usize,
}

/// A sequencer track - controls one pad
pub struct SequencerTrack {
    /// Which pad this track controls (0-15)
    pub pad_index: usize,
    /// For each of the 64 steps, whether it holds a trigger
    pub steps: Vec<bool>,
    /// Number of active steps (can be less than steps.len())
    pub length: usize,
    /// Current playback step
    pub current_step: usize,
    /// Whether this track is playing
    pub is_playing: bool,
    /// Mute state
    pub muted: bool,
    /// Solo state
    pub solo: bool,
    /// Track name (defaults to pad name)
    pub name: Option<String>,
    /// Accumulated ticks for step timing
    pub tick_accumulator: u32,
    /// Currently active gates that need to be released
    pub active_gates: Vec<ActiveGate>,
}

/// The gates still open at `tick`: those whose end lies after it, in order.
pub open spec fn spec_open_gates(gates: Seq<ActiveGate>, tick: u64) -> Seq<ActiveGate> {
    gates.filter(|g: ActiveGate| tick < g.end_tick)
}

/// Some gate ends at or before `tick`.
pub open spec fn spec_some_gate_closes(gates: Seq<ActiveGate>, tick: u64) -> bool {
    exists|i: int| 0 <= i < gates.len() && #[trigger] gates[i].end_tick <= tick
}

/// The length a track gets when asked for `length` steps: at least 1, at
/// most 64.
pub open spec fn spec_clamp_length(length: usize) -> usize {
    if length < 1 {
        1
    } else if length > 64 {
        64
    } else {
        length
    }
}

/// Label of a track: its name, or "Pad n" with pads numbered from 1.
pub open spec fn spec_track_display_name(name: Option<Seq<char>>, pad_index: usize) -> Seq<char> {
    match name {
        Some(n) => n,
        None => "Pad "@ + spec_decimal(pad_index as nat + 1),
    }
}

impl SequencerTrack {
    /// The track's playback position lies within its length, and it has
    /// all 64 steps.
    pub open spec fn wf(&self) -> bool {
        &&& self.steps@.len() == MAX_STEPS
        &&& 1 <= self.length <= MAX_STEPS
        &&& self.current_step < self.length
    }

    /// A stopped 16-step track with no active step, no name and no gate.
    pub fn new(pad_index: usize) -> (t: Self)
        ensures
            t.pad_index == pad_index,
            t.steps@ == Seq::new(64, |i: int| false),
            t.length == DEFAULT_LENGTH,
            t.current_step == 0,
            !t.is_playing,
            !t.muted,
            !t.solo,
            t.name is None,
            t.tick_accumulator == 0,
            t.active_gates@.len() == 0,
            t.wf(),
    {
        let mut steps: Vec<bool> = Vec::new();
        for i in 0..MAX_STEPS
            invariant
                steps@ == Seq::new(i as nat, |j: int| false),
        {
            steps.push(false);
            proof {
                assert(steps@ =~= Seq::new((i + 1) as nat, |j: int| false));
            }
        }
        SequencerTrack {
            pad_index,
            steps,
            length: DEFAULT_LENGTH,
            current_step: 0,
            is_playing: false,
            muted: false,
            solo: false,
            name: None,
            tick_accumulator: 0,
            active_gates: Vec::new(),
        }
    }

    /// Advance to next step. Returns true if wrapped around
    pub fn advance(&mut self) -> (wrapped: bool)
        requires
            old(self).current_step < usize::MAX,
        ensures
            wrapped == (old(self).current_step + 1 >= old(self).length),
            final(self).current_step == if wrapped { 0 } else { old(self).current_step + 1 },
            final(self).steps == old(self).steps,
            final(self).length == old(self).length,
            final(self).active_gates == old(self).active_gates,
            final(self).tick_accumulator == old(self).tick_accumulator,
            final(self).pad_index == old(self).pad_index,
            final(self).muted == old(self).muted,
            final(self).is_playing == old(self).is_playing,
            final(self).solo == old(self).solo,
            final(self).name == old(self).name,
            old(self).wf() ==> final(self).wf(),
    {
        self.current_step = self.current_step + 1;
        if self.current_step >= self.length {
            self.current_step = 0;
            true
        } else {
            false
        }
    }

    /// Reset to first step
    pub fn reset(&mut self)
        ensures
            final(self).current_step == 0,
            final(self).tick_accumulator == 0,
            final(self).active_gates@.len() == 0,
            final(self).steps == old(self).steps,
            final(self).length == old(self).length,
            final(self).pad_index == old(self).pad_index,
            final(self).muted == old(self).muted,
            final(self).is_playing == old(self).is_playing,
            final(self).solo == old(self).solo,
            final(self).name == old(self).name,
            old(self).wf() ==> final(self).wf(),
    {
        self.current_step = 0;
        self.tick_accumulator = 0;
        self.active_gates.clear();
    }

    /// Update active gates and return true if a release should be emitted.
    /// Call this every tick with the current global tick count: the gates
    /// that have ended are removed.
    pub fn update_gates(&mut self, current_tick: u64) -> (should_release: bool)
        ensures
            final(self).active_gates@ == spec_open_gates(old(self).active_gates@, current_tick),
            should_release == spec_some_gate_closes(old(self).active_gates@, current_tick),
            final(self).current_step == old(self).current_step,
            final(self).steps == old(self).steps,
            final(self).length == old(self).length,
            final(self).pad_index == old(self).pad_index,
            final(self).muted == old(self).muted,
            final(self).is_playing == old(self).is_playing,
            final(self).solo == old(self).solo,
            final(self).name == old(self).name,
            final(self).tick_accumulator == old(self).tick_accumulator,
    {
        let ghost gates = self.active_gates@;
        let mut kept: Vec<ActiveGate> = Vec::new();
        let mut should_release = false;
        for i in 0..self.active_gates.len()
            invariant
                gates == self.active_gates@,
                kept@ == spec_open_gates(gates.take(i as int), current_tick),
                should_release == spec_some_gate_closes(gates.take(i as int), current_tick),
        {
            let gate = self.active_gates[i];
            proof {
                assert(gates.take(i + 1) =~= gates.take(i as int).push(gate));
                gates.take(i as int).lemma_filter_push(gate, |g: ActiveGate| current_tick < g.end_tick);
                if spec_some_gate_closes(gates.take(i as int), current_tick) {
                    let j = choose|j: int|
                        0 <= j < gates.take(i as int).len() && #[trigger] gates.take(i as int)[j].end_tick
                            <= current_tick;
                    assert(gates.take(i + 1)[j] == gates.take(i as int)[j]);
                }
                if current_tick >= gate.end_tick {
                    assert(gates.take(i + 1)[i as int] == gate);
                }
                if spec_some_gate_closes(gates.take(i + 1), current_tick) && current_tick < gate.end_tick {
                    let j = choose|j: int|
                        0 <= j < gates.take(i + 1).len() && #[trigger] gates.take(i + 1)[j].end_tick
                            <= current_tick;
                    assert(gates.take(i + 1)[j] == gates.take(i as int)[j]);
                }
            }
            if current_tick >= gate.end_tick {
                should_release = true;
            } else {
                kept.push(gate);
            }
        }
        proof {
            assert(gates.take(gates.len() as int) =~= gates);
        }
        self.active_gates = kept;
        should_release
    }

    /// Add a new active gate, ending `gate_length_ticks` after `start_tick`,
    /// for the current step.
    pub fn add_gate(&mut self, start_tick: u64, gate_length_ticks: u32)
        requires
            start_tick + gate_length_ticks <= u64::MAX,
        ensures
            final(self).active_gates@ == old(self).active_gates@.push(
                ActiveGate {
                    end_tick: (start_tick + gate_length_ticks) as u64,
                    step_index: old(self).current_step,
                },
            ),
            final(self).current_step == old(self).current_step,
            final(self).steps == old(self).steps,
            final(self).length == old(self).length,
            final(self).pad_index == old(self).pad_index,
            final(self).muted == old(self).muted,
            final(self).is_playing == old(self).is_playing,
            final(self).solo == old(self).solo,
            final(self).name == old(self).name,
            final(self).tick_accumulator == old(self).tick_accumulator,
    {
        let end_tick = start_tick + gate_length_ticks as u64;
        self.active_gates.push(ActiveGate { end_tick, step_index: self.current_step });
    }

    /// Check if there are any active gates
    pub fn has_active_gates(&self) -> (b: bool)
        ensures
            b == (self.active_gates@.len() > 0),
    {
        self.active_gates.len() != 0
    }

    /// Set the sequence length (1-64); a playback position past the new end
    /// goes back to the first step.
    pub fn set_length(&mut self, length: usize)
        ensures
            final(self).length == spec_clamp_length(length),
            final(self).current_step == if old(self).current_step >= spec_clamp_length(length) {
                0
            } else {
                old(self).current_step
            },
            final(self).steps == old(self).steps,
            final(self).active_gates == old(self).active_gates,
            final(self).pad_index == old(self).pad_index,
            final(self).muted == old(self).muted,
            final(self).is_playing == old(self).is_playing,
            final(self).solo == old(self).solo,
            final(self).name == old(self).name,
            final(self).tick_accumulator == old(self).tick_accumulator,
            old(self).steps@.len() == MAX_STEPS ==> final(self).wf(),
    {
        self.length = if length < 1 {
            1
        } else if length > MAX_STEPS {
            MAX_STEPS
        } else {
            length
        };
        if self.current_step >= self.length {
            self.current_step = 0;
        }
    }

    /// Toggle a step on/off; an index past the last step changes nothing.
    pub fn toggle_step(&mut self, step: usize)
        ensures
            final(self).steps@ == if step < old(self).steps@.len() {
                old(self).steps@.update(step as int, !old(self).steps@[step as int])
            } else {
                old(self).steps@
            },
            final(self).current_step == old(self).current_step,
            final(self).length == old(self).length,
            final(self).active_gates == old(self).active_gates,
            final(self).pad_index == old(self).pad_index,
            final(self).muted == old(self).muted,
            final(self).is_playing == old(self).is_playing,
            final(self).solo == old(self).solo,
            final(self).name == old(self).name,
            final(self).tick_accumulator == old(self).tick_accumulator,
            old(self).wf() ==> final(self).wf(),
    {
        if step < self.steps.len() {
            let v = self.steps[step];
            self.steps.set(step, !v);
        }
    }

    /// Clear all steps and go back to the first step.
    pub fn clear(&mut self)
        ensures
            final(self).steps@ == Seq::new(old(self).steps@.len(), |i: int| false),
            final(self).current_step == 0,
            final(self).length == old(self).length,
            final(self).active_gates == old(self).active_gates,
            final(self).pad_index == old(self).pad_index,
            final(self).muted == old(self).muted,
            final(self).is_playing == old(self).is_playing,
            final(self).solo == old(self).solo,
            final(self).name == old(self).name,
            final(self).tick_accumulator == old(self).tick_accumulator,
            old(self).wf() ==> final(self).wf(),
    {
        let n = self.steps.len();
        for i in 0..n
            invariant
                n == self.steps@.len(),
                n == old(self).steps@.len(),
                forall|j: int| 0 <= j < i ==> !#[trigger] self.steps@[j],
                self.current_step == old(self).current_step,
                self.length == old(self).length,
                self.active_gates == old(self).active_gates,
                self.pad_index == old(self).pad_index,
                self.muted == old(self).muted,
                self.is_playing == old(self).is_playing,
                self.solo == old(self).solo,
                self.name == old(self).name,
                self.tick_accumulator == old(self).tick_accumulator,
        {
            self.steps.set(i, false);
        }
        proof {
            assert(self.steps@ =~= Seq::new(n as nat, |i: int| false));
        }
        self.current_step = 0;
    }

    /// Whether step `index` holds a trigger (None past the last step).
    pub fn get_step(&self, index: usize) -> (active: Option<bool>)
        ensures
            active == if index < self.steps@.len() {
                Some(self.steps@[index as int])
            } else {
                None
            },
    {
        if index < self.steps.len() {
            Some(self.steps[index])
        } else {
            None
        }
    }

    /// Whether the current step holds a trigger.
    pub fn current(&self) -> (active: bool)
        requires
            self.current_step < self.steps@.len(),
        ensures
            active == self.steps@[self.current_step as int],
    {
        self.steps[self.current_step]
    }

    /// The current step, to change whether it holds a trigger.
    pub fn current_mut(&mut self) -> (active: &mut bool)
        requires
            old(self).current_step < old(self).steps@.len(),
        ensures
            *active == old(self).steps@[old(self).current_step as int],
            final(self).steps@ == old(self).steps@.update(old(self).current_step as int, *final(active)),
            final(self).current_step == old(self).current_step,
            final(self).length == old(self).length,
            final(self).pad_index == old(self).pad_index,
            final(self).active_gates == old(self).active_gates,
            final(self).tick_accumulator == old(self).tick_accumulator,
            final(self).muted == old(self).muted,
            final(self).is_playing == old(self).is_playing,
            final(self).solo == old(self).solo,
            final(self).name == old(self).name,
    {
        let i = self.current_step;
        &mut self.steps[i]
    }

    /// Step `index`, to change whether it holds a trigger (None past the
    /// last step).
    pub fn get_step_mut(&mut self, index: usize) -> (active: Option<&mut bool>)
        ensures
            index < old(self).steps@.len() ==> {
                &&& active matches Some(r)
                &&& *r == old(self).steps@[index as int]
                &&& final(self).steps@ == old(self).steps@.update(index as int, *final(r))
                &&& final(self).current_step == old(self).current_step
                &&& final(self).length == old(self).length
                &&& final(self).pad_index == old(self).pad_index
                &&& final(self).active_gates == old(self).active_gates
                &&& final(self).tick_accumulator == old(self).tick_accumulator
                &&& final(self).muted == old(self).muted
                &&& final(self).is_playing == old(self).is_playing
                &&& final(self).solo == old(self).solo
                &&& final(self).name == old(self).name
            },
            index >= old(self).steps@.len() ==> active is None && *final(self) == *old(self),
    {
        if index < self.steps.len() {
            Some(&mut self.steps[index])
        } else {
            None
        }
    }

    /// Steps `start .. start + count` for the UI, cut at the last step.
    pub fn get_step_range(&self, start: usize, count: usize) -> (range: &[bool])
        requires
            start <= self.steps@.len(),
            start + count <= usize::MAX,
        ensures
            range@ == self.steps@.subrange(
                start as int,
                if start + count <= self.steps@.len() { start + count } else { self.steps@.len() as int },
            ),
    {
        let end = if start + count <= self.steps.len() { start + count } else { self.steps.len() };
        slice_subrange(self.steps.as_slice(), start, end)
    }

    /// Get display name
    pub fn display_name(&self) -> (name: String)
        requires
            self.name is None ==> self.pad_index < usize::MAX,
        ensures
            name@ == spec_track_display_name(
                match self.name {
                    Some(n) => Some(n@),
                    None => None,
                },
                self.pad_index,
            ),
    {
        match &self.name {
            Some(n) => n.clone(),
            None => {
                proof {
                    reveal_strlit("");
                    assert("Pad "@ + spec_decimal((self.pad_index + 1) as nat) + ""@ =~= "Pad "@
                        + spec_decimal((self.pad_index + 1) as nat));
                }
                decimal_between("Pad ", self.pad_index + 1, "")
            },
        }
    }
}

impl Default for SequencerTrack {
    fn default() -> (t: Self)
        ensures
            t.pad_index == 0,
            t.wf(),
    {
        Self::new(0)
    }
}

impl Clone for SequencerTrack {
    fn clone(&self) -> (c: Self)
        ensures
            c.pad_index == self.pad_index,
            c.steps@ == self.steps@,
            c.length == self.length,
            c.current_step == self.current_step,
            c.is_playing == self.is_playing,
            c.muted == self.muted,
            c.solo == self.solo,
            c.name == self.name,
            c.tick_accumulator == self.tick_accumulator,
            c.active_gates@ == self.active_gates@,
    {
        SequencerTrack {
            pad_index: self.pad_index,
            steps: self.steps.clone(),
            length: self.length,
            current_step: self.current_step,
            is_playing: self.is_playing,
            muted: self.muted,
            solo: self.solo,
            name: match &self.name {
                Some(n) => Some(n.clone()),
                None => None,
            },
            tick_accumulator: self.tick_accumulator,
            active_gates: self.active_gates.clone(),
        }
    }
}

/// After `update_gates` at a tick, no open gate has reached its end, and
/// every gate that has not reached its end is still open: the gates that
/// close are exactly the expired ones.
pub proof fn lemma_gate_release_exact(gates: Seq<ActiveGate>, tick: u64)
    ensures
        forall|i: int|
            0 <= i < spec_open_gates(gates, tick).len() ==> tick < #[trigger] spec_open_gates(
                gates,
                tick,
            )[i].end_tick,
        forall|g: ActiveGate| #[trigger]
            gates.contains(g) && tick < g.end_tick ==> spec_open_gates(gates, tick).contains(g),
        spec_open_gates(gates, tick).len() < gates.len() <== spec_some_gate_closes(gates, tick),
{
    let f = |g: ActiveGate| tick < g.end_tick;
    broadcast use vstd::seq_lib::group_filter_ensures;

    assert forall|g: ActiveGate| #[trigger]
        gates.contains(g) && tick < g.end_tick implies spec_open_gates(gates, tick).contains(g) by {
        gates.lemma_filter_contains_rev(f, g);
    }
    if spec_some_gate_closes(gates, tick) {
        let j = choose|j: int| 0 <= j < gates.len() && #[trigger] gates[j].end_tick <= tick;
        lemma_filter_len_lt(gates, f, j);
    }
}

proof fn lemma_filter_len_lt(s: Seq<ActiveGate>, f: spec_fn(ActiveGate) -> bool, j: int)
    requires
        0 <= j < s.len(),
        !f(s[j]),
    ensures
        s.filter(f).len() < s.len(),
    decreases s.len(),
{
    s.lemma_filter_len(f);
    let init = s.drop_last();
    assert(init.push(s.last()) =~= s);
    init.lemma_filter_push(s.last(), f);
    init.lemma_filter_len(f);
    if j < s.len() - 1 {
        assert(init[j] == s[j]);
        lemma_filter_len_lt(init, f, j);
    }
}

} // verus!
