//! Input handling - MIDI and OSC decoding and mapping

pub mod events;
pub mod midi;
pub mod midi_mapping;
pub mod osc;
pub mod router;

pub use events::MidiEvent;
