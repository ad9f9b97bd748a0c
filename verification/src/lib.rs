//! Verified core logic of the RustJay 404 video sampler: pad and mixer
//! settings, MIDI decoding, preset bookkeeping and sequencer timing.

pub mod app;
pub mod engine;
pub mod input;
pub mod util;
pub mod audio;
pub mod lfo;
pub mod sampler;
pub mod preset;
pub mod output;
pub mod player;
pub mod ui;
pub mod v4l2_devices;
pub mod sequencer;
