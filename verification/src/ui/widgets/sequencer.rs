//! Sequencer grid widget

use vstd::prelude::*;

verus! {

/// The step grid widget; it keeps no state of its own.
#[derive(Debug, Clone, Copy, PartialEq, Eq, Structural)]
pub struct SequencerWidget;

impl SequencerWidget {
    pub fn new() -> (w: Self)
        ensures
            w == SequencerWidget,
    {
        SequencerWidget
    }
}

impl Default for SequencerWidget {
    fn default() -> (w: Self)
        ensures
            w == SequencerWidget,
    {
        Self::new()
    }
}

} // verus!
