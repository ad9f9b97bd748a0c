//! Sequencer window - dedicated step sequencer

use vstd::prelude::*;

verus! {

/// Dedicated sequencer window
pub struct SequencerWindow {
    /// Step edit popup state
    editing_track: Option<usize>,
    editing_step: Option<usize>,
}

impl SequencerWindow {
    /// The track and step whose edit popup is open.
    pub closed spec fn editing(&self) -> (Option<usize>, Option<usize>) {
        (self.editing_track, self.editing_step)
    }

    /// A window with no step being edited.
    pub fn new() -> (w: Self)
        ensures
            w.editing() == (None::<usize>, None::<usize>),
    {
        Self { editing_track: None, editing_step: None }
    }
}

} // verus!
