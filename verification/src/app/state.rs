//! Application state machine

use vstd::prelude::*;

verus! {

/// Top-level mode of the performance interface.
#[derive(Debug, Clone, Copy, PartialEq, Eq, Structural)]
pub enum AppMode {
    /// Normal performance mode - pad grid, mixer
    Perform,
    /// Sample editing - in/out points, waveform
    Edit,
    /// Live capture mode
    Record,
    /// Sequencer editing
    Sequence,
}

/// The mode that follows `mode` when the user cycles through modes:
/// Perform -> Edit -> Sequence -> Record -> Perform.
pub open spec fn spec_next_mode(mode: AppMode) -> AppMode {
    match mode {
        AppMode::Perform => AppMode::Edit,
        AppMode::Edit => AppMode::Sequence,
        AppMode::Sequence => AppMode::Record,
        AppMode::Record => AppMode::Perform,
    }
}

pub struct AppState {
    pub mode: AppMode,
    pub selected_pad: Option<usize>,
    pub show_settings: bool,
    pub show_browser: bool,
}

impl AppState {
    pub fn new() -> (s: Self)
        ensures
            s.mode == AppMode::Perform,
            s.selected_pad is None,
            !s.show_settings,
            !s.show_browser,
    {
        Self { mode: AppMode::Perform, selected_pad: None, show_settings: false, show_browser: false }
    }

    pub fn next_mode(&mut self)
        ensures
            final(self).mode == spec_next_mode(old(self).mode),
            final(self).selected_pad == old(self).selected_pad,
            final(self).show_settings == old(self).show_settings,
            final(self).show_browser == old(self).show_browser,
    {
        self.mode = match self.mode {
            AppMode::Perform => AppMode::Edit,
            AppMode::Edit => AppMode::Sequence,
            AppMode::Sequence => AppMode::Record,
            AppMode::Record => AppMode::Perform,
        };
    }
}

impl Default for AppState {
    fn default() -> (s: Self)
        ensures
            s.mode == AppMode::Perform,
            s.selected_pad is None,
            !s.show_settings,
            !s.show_browser,
    {
        Self::new()
    }
}

/// Cycling through the modes visits all four of them and returns to the
/// starting mode after exactly four steps.
pub proof fn lemma_mode_cycle(mode: AppMode)
    ensures
        spec_next_mode(spec_next_mode(spec_next_mode(spec_next_mode(mode)))) == mode,
        spec_next_mode(mode) != mode,
        spec_next_mode(spec_next_mode(mode)) != mode,
        spec_next_mode(spec_next_mode(spec_next_mode(mode))) != mode,
{
}

} // verus!
