//! Raw input events from MIDI controllers.

use vstd::prelude::*;

verus! {

/// MIDI event types (raw)
#[derive(Debug, Clone, Copy, PartialEq, Eq, Structural)]
pub enum MidiEvent {
    NoteOn { channel: u8, note: u8, velocity: u8 },
    NoteOff { channel: u8, note: u8 },
    ControlChange { channel: u8, cc: u8, value: u8 },
}

impl MidiEvent {
    /// The MIDI channel (low nibble of the status byte) the event came on.
    pub open spec fn spec_channel(self) -> u8 {
        match self {
            MidiEvent::NoteOn { channel, .. } => channel,
            MidiEvent::NoteOff { channel, .. } => channel,
            MidiEvent::ControlChange { channel, .. } => channel,
        }
    }
}

} // verus!
