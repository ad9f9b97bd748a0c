//! Sequencer module - Polyphonic drum machine style

pub mod clock;
pub mod pattern;
pub mod step;
pub mod track;

pub use pattern::Pattern;
pub use track::SequencerTrack;
