//! Banks of 16 pads, the bank manager, and how pad modes are written to and
//! read from a bank's JSON file. The file I/O and the JSON encoding happen
//! in the application.

use vstd::prelude::*;
use crate::sampler::pad::{
    spec_playing_after_release, spec_playing_after_trigger, BlendMode, PadPlayState, TriggerMode,
};
use crate::util::text::str_eq;

verus! {

/// Name under which a trigger mode is written to a bank file.
pub open spec fn spec_trigger_mode_name(mode: TriggerMode) -> Seq<char> {
    match mode {
        TriggerMode::Gate => "Gate"@,
        TriggerMode::Latch => "Latch"@,
        TriggerMode::OneShot => "OneShot"@,
    }
}

/// Trigger mode read from a bank file: the mode with that name, or the
/// default (Gate) for an unknown name.
pub open spec fn spec_parse_trigger_mode(name: Seq<char>) -> TriggerMode {
    if name == "Latch"@ {
        TriggerMode::Latch
    } else if name == "OneShot"@ {
        TriggerMode::OneShot
    } else {
        TriggerMode::Gate
    }
}

/// Name under which a blend mode is written to a bank file.
pub open spec fn spec_blend_mode_name(mode: BlendMode) -> Seq<char> {
    match mode {
        BlendMode::Replace => "Replace"@,
        BlendMode::Add => "Add"@,
        BlendMode::Multiply => "Multiply"@,
        BlendMode::Screen => "Screen"@,
        BlendMode::Alpha => "Alpha"@,
    }
}

/// Blend mode read from a bank file: the mode with that name, or the
/// default (Replace) for an unknown name.
pub open spec fn spec_parse_blend_mode(name: Seq<char>) -> BlendMode {
    if name == "Add"@ {
        BlendMode::Add
    } else if name == "Multiply"@ {
        BlendMode::Multiply
    } else if name == "Screen"@ {
        BlendMode::Screen
    } else if name == "Alpha"@ {
        BlendMode::Alpha
    } else {
        BlendMode::Replace
    }
}

/// The name written for a trigger mode.
pub fn trigger_mode_name(mode: TriggerMode) -> (name: &'static str)
    ensures
        name@ == spec_trigger_mode_name(mode),
{
    match mode {
        TriggerMode::Gate => "Gate",
        TriggerMode::Latch => "Latch",
        TriggerMode::OneShot => "OneShot",
    }
}

/// The trigger mode a name in a bank file stands for.
pub fn parse_trigger_mode(name: &str) -> (mode: TriggerMode)
    ensures
        mode == spec_parse_trigger_mode(name@),
{
    if str_eq(name, "Gate") {
        proof {
            reveal_strlit("Gate");
            reveal_strlit("Latch");
            reveal_strlit("OneShot");
            assert(name@ != "Latch"@ && name@ != "OneShot"@) by {
                assert(name@[0] != "Latch"@[0]);
                assert(name@[0] != "OneShot"@[0]);
            }
        }
        TriggerMode::Gate
    } else if str_eq(name, "Latch") {
        TriggerMode::Latch
    } else if str_eq(name, "OneShot") {
        TriggerMode::OneShot
    } else {
        TriggerMode::Gate
    }
}

/// The name written for a blend mode.
pub fn blend_mode_name(mode: BlendMode) -> (name: &'static str)
    ensures
        name@ == spec_blend_mode_name(mode),
{
    match mode {
        BlendMode::Replace => "Replace",
        BlendMode::Add => "Add",
        BlendMode::Multiply => "Multiply",
        BlendMode::Screen => "Screen",
        BlendMode::Alpha => "Alpha",
    }
}

/// The blend mode a name in a bank file stands for.
pub fn parse_blend_mode(name: &str) -> (mode: BlendMode)
    ensures
        mode == spec_parse_blend_mode(name@),
{
    if str_eq(name, "Add") {
        BlendMode::Add
    } else if str_eq(name, "Multiply") {
        BlendMode::Multiply
    } else if str_eq(name, "Screen") {
        BlendMode::Screen
    } else if str_eq(name, "Alpha") {
        BlendMode::Alpha
    } else {
        BlendMode::Replace
    }
}

/// Each mode is written to a bank file under its own name, and that name
/// reads back as the mode; an unknown name reads as the default mode.
pub proof fn lemma_modes_written_by_name(unknown: Seq<char>)
    ensures
        spec_trigger_mode_name(TriggerMode::Gate) == "Gate"@,
        spec_trigger_mode_name(TriggerMode::Latch) == "Latch"@,
        spec_trigger_mode_name(TriggerMode::OneShot) == "OneShot"@,
        spec_parse_trigger_mode("Gate"@) == TriggerMode::Gate,
        spec_parse_trigger_mode("Latch"@) == TriggerMode::Latch,
        spec_parse_trigger_mode("OneShot"@) == TriggerMode::OneShot,
        spec_blend_mode_name(BlendMode::Replace) == "Replace"@,
        spec_blend_mode_name(BlendMode::Add) == "Add"@,
        spec_blend_mode_name(BlendMode::Multiply) == "Multiply"@,
        spec_blend_mode_name(BlendMode::Screen) == "Screen"@,
        spec_blend_mode_name(BlendMode::Alpha) == "Alpha"@,
        spec_parse_blend_mode("Replace"@) == BlendMode::Replace,
        spec_parse_blend_mode("Add"@) == BlendMode::Add,
        spec_parse_blend_mode("Multiply"@) == BlendMode::Multiply,
        spec_parse_blend_mode("Screen"@) == BlendMode::Screen,
        spec_parse_blend_mode("Alpha"@) == BlendMode::Alpha,
        unknown != "Gate"@ && unknown != "Latch"@ && unknown != "OneShot"@ ==> spec_parse_trigger_mode(
            unknown,
        ) == TriggerMode::Gate,
        unknown != "Replace"@ && unknown != "Add"@ && unknown != "Multiply"@ && unknown != "Screen"@
            && unknown != "Alpha"@ ==> spec_parse_blend_mode(unknown) == BlendMode::Replace,
{
    lemma_mode_names_roundtrip(TriggerMode::Gate, BlendMode::Replace);
    lemma_mode_names_roundtrip(TriggerMode::Latch, BlendMode::Add);
    lemma_mode_names_roundtrip(TriggerMode::OneShot, BlendMode::Multiply);
    lemma_mode_names_roundtrip(TriggerMode::Gate, BlendMode::Screen);
    lemma_mode_names_roundtrip(TriggerMode::Gate, BlendMode::Alpha);
}

/// Saving a bank and loading it back gives every pad its trigger mode and
/// blend mode again.
pub proof fn lemma_mode_names_roundtrip(t: TriggerMode, b: BlendMode)
    ensures
        spec_parse_trigger_mode(spec_trigger_mode_name(t)) == t,
        spec_parse_blend_mode(spec_blend_mode_name(b)) == b,
{
    reveal_strlit("Gate");
    reveal_strlit("Latch");
    reveal_strlit("OneShot");
    reveal_strlit("Replace");
    reveal_strlit("Add");
    reveal_strlit("Multiply");
    reveal_strlit("Screen");
    reveal_strlit("Alpha");
    assert("Gate"@ != "Latch"@ && "Gate"@ != "OneShot"@) by {
        assert("Gate"@[0] != "Latch"@[0]);
        assert("Gate"@[0] != "OneShot"@[0]);
    }
    assert("Latch"@ != "OneShot"@) by {
        assert("Latch"@[0] != "OneShot"@[0]);
    }
    assert("Replace"@ != "Add"@ && "Replace"@ != "Multiply"@ && "Replace"@ != "Screen"@
        && "Replace"@ != "Alpha"@) by {
        assert("Replace"@[0] != "Add"@[0]);
        assert("Replace"@[0] != "Multiply"@[0]);
        assert("Replace"@[0] != "Screen"@[0]);
        assert("Replace"@[0] != "Alpha"@[0]);
    }
    assert("Multiply"@ != "Add"@ && "Screen"@ != "Add"@ && "Alpha"@ != "Add"@) by {
        assert("Multiply"@[0] != "Add"@[0]);
        assert("Screen"@[0] != "Add"@[0]);
        assert("Alpha"@.len() != "Add"@.len());
    }
    assert("Screen"@ != "Multiply"@ && "Alpha"@ != "Multiply"@) by {
        assert("Screen"@[0] != "Multiply"@[0]);
        assert("Alpha"@[0] != "Multiply"@[0]);
    }
    assert("Alpha"@ != "Screen"@) by {
        assert("Alpha"@[0] != "Screen"@[0]);
    }
}


/// A bank of 16 pads: its name and the playback switches of each pad. The
/// samples, levels and playback positions of the pads are kept by the
/// application next to the bank.
pub struct SampleBank {
    pub name: String,
    pub pads: [PadPlayState; 16],
}

/// A pad of a new bank: stopped, released, in Gate mode.
pub open spec fn spec_idle_pad() -> PadPlayState {
    PadPlayState { trigger_mode: TriggerMode::Gate, is_playing: false, is_triggered: false }
}

/// Pad `p` after a stop: same mode, neither playing nor held.
pub open spec fn spec_stopped(p: PadPlayState) -> PadPlayState {
    PadPlayState { trigger_mode: p.trigger_mode, is_playing: false, is_triggered: false }
}

pub open spec fn playing_pred(pads: Seq<PadPlayState>) -> spec_fn(usize) -> bool {
    |i: usize| pads[i as int].is_playing
}

/// Indices of the playing pads, in order.
pub open spec fn spec_active_pads(pads: Seq<PadPlayState>) -> Seq<usize> {
    Seq::new(16, |i: int| i as usize).filter(playing_pred(pads))
}

impl SampleBank {
    /// A bank of stopped pads in Gate mode.
    pub fn new(name: &str) -> (b: Self)
        ensures
            b.name@ == name@,
            forall|i: int| 0 <= i < 16 ==> #[trigger] b.pads@[i] == spec_idle_pad(),
    {
        let p = PadPlayState::new(TriggerMode::default());
        SampleBank {
            name: String::from_str(name),
            pads: [p, p, p, p, p, p, p, p, p, p, p, p, p, p, p, p],
        }
    }

    /// Get a pad by index
    pub fn get_pad(&self, index: usize) -> (pad: Option<&PadPlayState>)
        ensures
            index < 16 ==> pad == Some(&self.pads@[index as int]),
            index >= 16 ==> pad is None,
    {
        if index < 16 {
            Some(&self.pads[index])
        } else {
            None
        }
    }

    /// Get a mutable pad by index
    pub fn get_pad_mut(&mut self, index: usize) -> (pad: Option<&mut PadPlayState>)
        ensures
            index < 16 ==> {
                &&& pad matches Some(p)
                &&& *p == old(self).pads@[index as int]
                &&& final(self).pads@ == old(self).pads@.update(index as int, *final(p))
                &&& final(self).name == old(self).name
            },
            index >= 16 ==> pad is None && *final(self) == *old(self),
    {
        if index < 16 {
            Some(&mut self.pads[index])
        } else {
            None
        }
    }

    /// Indices of the pads currently playing, in order.
    pub fn get_active_pads(&self) -> (active: Vec<usize>)
        ensures
            active@ == spec_active_pads(self.pads@),
    {
        let ghost all = Seq::new(16, |i: int| i as usize);
        let mut active: Vec<usize> = Vec::new();
        for i in 0..16usize
            invariant
                all == Seq::new(16, |i: int| i as usize),
                active@ == all.take(i as int).filter(playing_pred(self.pads@)),
        {
            proof {
                assert(all.take(i + 1) =~= all.take(i as int).push(i));
                all.take(i as int).lemma_filter_push(i, playing_pred(self.pads@));
            }
            if self.pads[i].is_playing {
                active.push(i);
            }
        }
        proof {
            assert(all.take(16) =~= all);
        }
        active
    }

    /// Stop all pads
    pub fn stop_all(&mut self)
        ensures
            forall|i: int| 0 <= i < 16 ==> #[trigger] final(self).pads@[i] == spec_stopped(old(self).pads@[i]),
            final(self).name == old(self).name,
    {
        for i in 0..16usize
            invariant
                self.name == old(self).name,
                forall|j: int| 0 <= j < i ==> #[trigger] self.pads@[j] == spec_stopped(old(self).pads@[j]),
                forall|j: int| i <= j < 16 ==> #[trigger] self.pads@[j] == old(self).pads@[j],
        {
            self.pads[i].stop();
        }
    }

    /// Trigger a pad by index; returns whether its playback (re)starts from
    /// the in-point (false for an index past the last pad).
    pub fn trigger_pad(&mut self, index: usize) -> (restart: bool)
        ensures
            index < 16 ==> {
                let p = old(self).pads@[index as int];
                let q = PadPlayState {
                    trigger_mode: p.trigger_mode,
                    is_playing: spec_playing_after_trigger(p.trigger_mode, p.is_playing),
                    is_triggered: true,
                };
                &&& final(self).pads@ == old(self).pads@.update(index as int, q)
                &&& restart == q.is_playing
            },
            index >= 16 ==> !restart && final(self).pads@ == old(self).pads@,
            final(self).name == old(self).name,
    {
        if index < 16 {
            self.pads[index].trigger()
        } else {
            false
        }
    }

    /// Release a pad by index (for GATE mode)
    pub fn release_pad(&mut self, index: usize)
        ensures
            index < 16 ==> {
                let p = old(self).pads@[index as int];
                final(self).pads@ == old(self).pads@.update(
                    index as int,
                    PadPlayState {
                        trigger_mode: p.trigger_mode,
                        is_playing: spec_playing_after_release(p.trigger_mode, p.is_playing),
                        is_triggered: false,
                    },
                )
            },
            index >= 16 ==> final(self).pads@ == old(self).pads@,
            final(self).name == old(self).name,
    {
        if index < 16 {
            self.pads[index].release();
        }
    }
}

/// Bank manager for multiple banks
pub struct BankManager {
    pub banks: Vec<SampleBank>,
    pub current_index: usize,
}

impl BankManager {
    /// The current bank is one of the banks.
    pub open spec fn wf(&self) -> bool {
        self.current_index < self.banks@.len()
    }

    /// One bank, "Bank A", which is current.
    pub fn new() -> (m: Self)
        ensures
            m.wf(),
            m.banks@.len() == 1,
            m.current_index == 0,
            m.banks@[0].name@ == "Bank A"@,
            forall|i: int| 0 <= i < 16 ==> #[trigger] m.banks@[0].pads@[i] == spec_idle_pad(),
    {
        let mut banks: Vec<SampleBank> = Vec::new();
        banks.push(SampleBank::new("Bank A"));
        BankManager { banks, current_index: 0 }
    }

    pub fn current_bank(&self) -> (b: &SampleBank)
        requires
            self.wf(),
        ensures
            *b == self.banks@[self.current_index as int],
    {
        &self.banks[self.current_index]
    }

    pub fn current_bank_mut(&mut self) -> (b: &mut SampleBank)
        requires
            old(self).wf(),
        ensures
            *b == old(self).banks@[old(self).current_index as int],
            final(self).banks@ == old(self).banks@.update(old(self).current_index as int, *final(b)),
            final(self).current_index == old(self).current_index,
    {
        let i = self.current_index;
        &mut self.banks[i]
    }

    /// Make bank `index` current, stopping every pad of the bank left.
    /// Nothing happens for an index past the last bank.
    pub fn switch_bank(&mut self, index: usize)
        requires
            old(self).wf(),
        ensures
            final(self).wf(),
            final(self).banks@.len() == old(self).banks@.len(),
            index < old(self).banks@.len() ==> {
                let c = old(self).current_index as int;
                &&& final(self).current_index == index
                &&& final(self).banks@[c].name == old(self).banks@[c].name
                &&& forall|p: int| 0 <= p < 16 ==> #[trigger] final(self).banks@[c].pads@[p]
                    == spec_stopped(old(self).banks@[c].pads@[p])
                &&& forall|b: int| 0 <= b < old(self).banks@.len() && b != c ==> #[trigger] final(self).banks@[b]
                    == old(self).banks@[b]
            },
            index >= old(self).banks@.len() ==> final(self).banks@ == old(self).banks@
                && final(self).current_index == old(self).current_index,
    {
        if index < self.banks.len() {
            self.current_bank_mut().stop_all();
            self.current_index = index;
        }
    }

    /// Add a bank of stopped pads; returns its index.
    pub fn add_bank(&mut self, name: &str) -> (index: usize)
        ensures
            index == old(self).banks@.len(),
            final(self).banks@.len() == old(self).banks@.len() + 1,
            final(self).banks@.take(index as int) == old(self).banks@,
            final(self).banks@[index as int].name@ == name@,
            forall|i: int| 0 <= i < 16 ==> #[trigger] final(self).banks@[index as int].pads@[i] == spec_idle_pad(),
            final(self).current_index == old(self).current_index,
            old(self).wf() ==> final(self).wf(),
    {
        let bank = SampleBank::new(name);
        self.banks.push(bank);
        proof {
            assert(self.banks@.take(old(self).banks@.len() as int) =~= old(self).banks@);
        }
        self.banks.len() - 1
    }
}

impl Default for BankManager {
    fn default() -> (m: Self)
        ensures
            m.wf(),
            m.banks@.len() == 1,
            m.current_index == 0,
            m.banks@[0].name@ == "Bank A"@,
    {
        Self::new()
    }
}

} // verus!
