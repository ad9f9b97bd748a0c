//! Windows of the control interface.

pub mod lfo;
pub mod sequencer;
pub mod video_settings;
