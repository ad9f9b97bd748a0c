//! MIDI message decoding and the fixed note/CC mapping.

use vstd::prelude::*;
use std::collections::HashMap;
use crate::input::events::MidiEvent;

verus! {

broadcast use vstd::std_specs::hash::group_hash_axioms;

/// Decoding of one MIDI channel-voice message.
///
/// The status byte's high nibble selects the message type and its low nibble
/// the channel. Note Off (0x8n), Note On (0x9n) and Control Change (0xBn) are
/// decoded when at least three bytes are present; a Note On with velocity 0
/// is a Note Off. Every other message, and every message shorter than two
/// bytes, decodes to nothing. Bytes after the third are ignored.
pub open spec fn spec_parse_midi_message(msg: Seq<u8>) -> Option<MidiEvent> {
    if msg.len() < 3 {
        None
    } else {
        let status = msg[0];
        let channel = (status % 16) as u8;
        let msg_type = status / 16;
        if msg_type == 8 {
            Some(MidiEvent::NoteOff { channel, note: msg[1] })
        } else if msg_type == 9 {
            if msg[2] == 0 {
                Some(MidiEvent::NoteOff { channel, note: msg[1] })
            } else {
                Some(MidiEvent::NoteOn { channel, note: msg[1], velocity: msg[2] })
            }
        } else if msg_type == 11 {
            Some(MidiEvent::ControlChange { channel, cc: msg[1], value: msg[2] })
        } else {
            None
        }
    }
}

/// Parse MIDI message bytes into event
pub fn parse_midi_message(msg: &[u8]) -> (event: Option<MidiEvent>)
    ensures
        event == spec_parse_midi_message(msg@),
        event matches Some(e) ==> e.spec_channel() < 16,
{
    if msg.len() < 2 {
        return None;
    }
    let status = msg[0];
    let channel = status & 0x0F;
    let msg_type = status & 0xF0;
    proof {
        assert(status & 0x0F == status % 16) by (bit_vector);
        assert(status & 0xF0 == (status / 16) * 16) by (bit_vector);
        assert(status & 0x0F < 16) by (bit_vector);
    }
    if msg_type == 0x80 {
        if msg.len() >= 3 {
            Some(MidiEvent::NoteOff { channel, note: msg[1] })
        } else {
            None
        }
    } else if msg_type == 0x90 {
        if msg.len() >= 3 {
            let velocity = msg[2];
            if velocity == 0 {
                Some(MidiEvent::NoteOff { channel, note: msg[1] })
            } else {
                Some(MidiEvent::NoteOn { channel, note: msg[1], velocity })
            }
        } else {
            None
        }
    } else if msg_type == 0xB0 {
        if msg.len() >= 3 {
            Some(MidiEvent::ControlChange { channel, cc: msg[1], value: msg[2] })
        } else {
            None
        }
    } else {
        None
    }
}

/// What a controller number drives.
#[derive(Debug, Clone, Copy, PartialEq, Eq, Structural)]
pub enum CcControl {
    PadVolume(usize),
    PadSpeed(usize),
    GlobalVolume,
    Bpm,
}

/// MIDI mapping configuration
pub struct MidiMapping {
    /// MIDI note number → Pad index (0-15)
    pub note_to_pad: [Option<usize>; 128],
    /// CC number → control type
    pub cc_map: HashMap<u8, CcControl>,
}

/// The pad that a note triggers in the default mapping: notes 36-51
/// (C2 to D#3) drive pads 0-15, other notes drive nothing.
pub open spec fn spec_default_note_pad(note: int) -> Option<usize> {
    if 36 <= note < 52 {
        Some((note - 36) as usize)
    } else {
        None
    }
}

impl Default for MidiMapping {
    fn default() -> (m: Self)
        ensures
            forall|n: int| 0 <= n < 128 ==> #[trigger] m.note_to_pad@[n] == spec_default_note_pad(n),
            m.cc_map@ == map![1u8 => CcControl::Bpm],
    {
        let mut note_to_pad: [Option<usize>; 128] = [None; 128];
        let mut i: usize = 0;
        while i < 16
            invariant
                i <= 16,
                forall|n: int| 0 <= n < 128 ==> #[trigger] note_to_pad@[n] == (
                    if 36 <= n < 36 + i { spec_default_note_pad(n) } else { None::<usize> }),
            decreases 16 - i,
        {
            note_to_pad[36 + i] = Some(i);
            i = i + 1;
        }
        let mut cc_map: HashMap<u8, CcControl> = HashMap::new();
        cc_map.insert(1, CcControl::Bpm);
        proof {
            assert(cc_map@ =~= map![1u8 => CcControl::Bpm]);
        }
        Self { note_to_pad, cc_map }
    }
}

impl Clone for MidiMapping {
    fn clone(&self) -> (c: Self)
        ensures
            c.note_to_pad@ == self.note_to_pad@,
            c.cc_map@ == self.cc_map@,
    {
        Self { note_to_pad: self.note_to_pad, cc_map: self.cc_map.clone() }
    }
}


/// What a MIDI event asks of the sampler under a mapping. Values are the
/// raw 7-bit MIDI values; the application scales them (velocity and volume
/// to 0-1, speed to 0-2, tempo to 60-240 BPM).
#[derive(Debug, Clone, Copy, PartialEq, Eq, Structural)]
pub enum MidiAction {
    PadTrigger { pad: usize, velocity: u8 },
    PadRelease { pad: usize },
    PadVolume { pad: usize, value: u8 },
    PadSpeed { pad: usize, value: u8 },
    SetBpm { value: u8 },
}

/// The pad a note drives under a note table (none for notes past the table).
pub open spec fn spec_note_pad(note_to_pad: Seq<Option<usize>>, note: u8) -> Option<usize> {
    if (note as int) < note_to_pad.len() {
        note_to_pad[note as int]
    } else {
        None
    }
}

/// The action a MIDI event maps to: notes of the table trigger and release
/// their pad; mapped controllers set a pad's volume or speed, or the tempo;
/// everything else (including the global-volume controller) maps to nothing.
pub open spec fn spec_map_event(
    note_to_pad: Seq<Option<usize>>,
    cc_map: Map<u8, CcControl>,
    midi: MidiEvent,
) -> Option<MidiAction> {
    match midi {
        MidiEvent::NoteOn { note, velocity, .. } => match spec_note_pad(note_to_pad, note) {
            Some(pad) => Some(MidiAction::PadTrigger { pad, velocity }),
            None => None,
        },
        MidiEvent::NoteOff { note, .. } => match spec_note_pad(note_to_pad, note) {
            Some(pad) => Some(MidiAction::PadRelease { pad }),
            None => None,
        },
        MidiEvent::ControlChange { cc, value, .. } => if cc_map.contains_key(cc) {
            match cc_map[cc] {
                CcControl::PadVolume(pad) => Some(MidiAction::PadVolume { pad, value }),
                CcControl::PadSpeed(pad) => Some(MidiAction::PadSpeed { pad, value }),
                CcControl::Bpm => Some(MidiAction::SetBpm { value }),
                CcControl::GlobalVolume => None,
            }
        } else {
            None
        },
    }
}

impl MidiMapping {
    /// Map a MIDI event to the action it asks for.
    pub fn map_event(&self, midi: &MidiEvent) -> (action: Option<MidiAction>)
        ensures
            action == spec_map_event(self.note_to_pad@, self.cc_map@, *midi),
    {
        match midi {
            MidiEvent::NoteOn { note, velocity, .. } => {
                if (*note as usize) < 128 {
                    match self.note_to_pad[*note as usize] {
                        Some(pad) => Some(MidiAction::PadTrigger { pad, velocity: *velocity }),
                        None => None,
                    }
                } else {
                    None
                }
            },
            MidiEvent::NoteOff { note, .. } => {
                if (*note as usize) < 128 {
                    match self.note_to_pad[*note as usize] {
                        Some(pad) => Some(MidiAction::PadRelease { pad }),
                        None => None,
                    }
                } else {
                    None
                }
            },
            MidiEvent::ControlChange { cc, value, .. } => {
                match self.cc_map.get(cc) {
                    Some(control) => match control {
                        CcControl::PadVolume(pad) => Some(
                            MidiAction::PadVolume { pad: *pad, value: *value },
                        ),
                        CcControl::PadSpeed(pad) => Some(MidiAction::PadSpeed { pad: *pad, value: *value }),
                        CcControl::Bpm => Some(MidiAction::SetBpm { value: *value }),
                        CcControl::GlobalVolume => None,
                    },
                    None => None,
                }
            },
        }
    }
}

/// Under the default mapping, a Note On with a nonzero velocity on any note
/// from 36 to 51 (received on any channel) triggers pad `note - 36`, and
/// the Note Off that releases it reaches the same pad; the modulation wheel
/// (CC 1) sets the tempo.
pub proof fn lemma_default_mapping_pads(
    note_to_pad: Seq<Option<usize>>,
    cc_map: Map<u8, CcControl>,
    channel: u8,
    note: u8,
    velocity: u8,
    value: u8,
)
    requires
        note_to_pad.len() == 128,
        forall|n: int| 0 <= n < 128 ==> #[trigger] note_to_pad[n] == spec_default_note_pad(n),
        cc_map == map![1u8 => CcControl::Bpm],
        36 <= note < 52,
        velocity > 0,
        channel < 16,
    ensures
        ({
            let on = spec_parse_midi_message(seq![(0x90 + channel) as u8, note, velocity]);
            let off = spec_parse_midi_message(seq![(0x80 + channel) as u8, note, 0u8]);
            &&& on == Some(MidiEvent::NoteOn { channel, note, velocity })
            &&& off == Some(MidiEvent::NoteOff { channel, note })
            &&& spec_map_event(note_to_pad, cc_map, on.unwrap()) == Some(
                MidiAction::PadTrigger { pad: (note - 36) as usize, velocity },
            )
            &&& spec_map_event(note_to_pad, cc_map, off.unwrap()) == Some(
                MidiAction::PadRelease { pad: (note - 36) as usize },
            )
            &&& spec_map_event(
                note_to_pad,
                cc_map,
                MidiEvent::ControlChange { channel, cc: 1, value },
            ) == Some(MidiAction::SetBpm { value })
        }),
{
    assert(note_to_pad[note as int] == spec_default_note_pad(note as int));
    let on_msg = seq![(0x90 + channel) as u8, note, velocity];
    assert(on_msg[0] / 16 == 9 && on_msg[0] % 16 == channel);
    let off_msg = seq![(0x80 + channel) as u8, note, 0u8];
    assert(off_msg[0] / 16 == 8 && off_msg[0] % 16 == channel);
}
} // verus!
