//! Reusable widgets of the control window.

pub mod pad_grid;
pub mod sequencer;
