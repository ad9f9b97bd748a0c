use rustjay_404::input::midi_mapping::{MidiMappingConfig, MidiMappingEntry};
use rustjay_404::input::events::MidiEvent;
use rustjay_404::input::midi::{parse_midi_message, CcControl, MidiAction, MidiMapping};
use rustjay_404::input::midi_mapping::{
    default_curve, default_true, learned_binding, mapping_action, mapping_matches, pad_control_id,
    MidiMappingType,
};

#[test]
fn parse_note_on_off_and_cc() {
    assert_eq!(
        parse_midi_message(&[0x93, 60, 100]),
        Some(MidiEvent::NoteOn { channel: 3, note: 60, velocity: 100 })
    );
    assert_eq!(parse_midi_message(&[0x80, 61, 5]), Some(MidiEvent::NoteOff { channel: 0, note: 61 }));
    assert_eq!(
        parse_midi_message(&[0xBF, 7, 127]),
        Some(MidiEvent::ControlChange { channel: 15, cc: 7, value: 127 })
    );
}

#[test]
fn note_on_with_zero_velocity_is_note_off() {
    assert_eq!(parse_midi_message(&[0x92, 40, 0]), Some(MidiEvent::NoteOff { channel: 2, note: 40 }));
}

#[test]
fn short_and_unknown_messages_decode_to_nothing() {
    assert_eq!(parse_midi_message(&[]), None);
    assert_eq!(parse_midi_message(&[0x90]), None);
    assert_eq!(parse_midi_message(&[0x90, 60]), None);
    assert_eq!(parse_midi_message(&[0xE0, 0, 64]), None); // pitch bend
    assert_eq!(parse_midi_message(&[0xF8, 0, 0]), None); // clock
    // extra bytes are ignored
    assert_eq!(
        parse_midi_message(&[0xB1, 1, 2, 3, 4]),
        Some(MidiEvent::ControlChange { channel: 1, cc: 1, value: 2 })
    );
}

#[test]
fn default_mapping_maps_notes_36_to_51_and_cc1() {
    let m = MidiMapping::default();
    for n in 0..128usize {
        let expected = if (36..52).contains(&n) { Some(n - 36) } else { None };
        assert_eq!(m.note_to_pad[n], expected);
    }
    assert_eq!(m.cc_map.len(), 1);
    assert_eq!(m.cc_map.get(&1), Some(&CcControl::Bpm));
    assert_eq!(
        m.map_event(&MidiEvent::NoteOn { channel: 9, note: 36, velocity: 90 }),
        Some(MidiAction::PadTrigger { pad: 0, velocity: 90 })
    );
    assert_eq!(
        m.map_event(&MidiEvent::NoteOff { channel: 0, note: 51 }),
        Some(MidiAction::PadRelease { pad: 15 })
    );
    assert_eq!(m.map_event(&MidiEvent::NoteOn { channel: 0, note: 52, velocity: 1 }), None);
    assert_eq!(m.map_event(&MidiEvent::NoteOn { channel: 0, note: 200, velocity: 1 }), None);
    assert_eq!(
        m.map_event(&MidiEvent::ControlChange { channel: 0, cc: 1, value: 64 }),
        Some(MidiAction::SetBpm { value: 64 })
    );
    assert_eq!(m.map_event(&MidiEvent::ControlChange { channel: 0, cc: 2, value: 64 }), None);
}

#[test]
fn custom_cc_controls() {
    let mut m = MidiMapping::default();
    m.cc_map.insert(20, CcControl::PadVolume(3));
    m.cc_map.insert(21, CcControl::PadSpeed(4));
    m.cc_map.insert(22, CcControl::GlobalVolume);
    let cc = |cc, value| MidiEvent::ControlChange { channel: 0, cc, value };
    assert_eq!(m.map_event(&cc(20, 10)), Some(MidiAction::PadVolume { pad: 3, value: 10 }));
    assert_eq!(m.map_event(&cc(21, 11)), Some(MidiAction::PadSpeed { pad: 4, value: 11 }));
    assert_eq!(m.map_event(&cc(22, 12)), None);
    let cloned = m.clone();
    assert_eq!(cloned.cc_map, m.cc_map);
}

#[test]
fn mapping_matches_channel_zero_means_any() {
    let on = MidiEvent::NoteOn { channel: 5, note: 40, velocity: 3 };
    assert!(mapping_matches(MidiMappingType::Note, 0, 40, &on));
    assert!(mapping_matches(MidiMappingType::Note, 5, 40, &on));
    assert!(!mapping_matches(MidiMappingType::Note, 4, 40, &on));
    assert!(!mapping_matches(MidiMappingType::Note, 0, 41, &on));
    assert!(!mapping_matches(MidiMappingType::ControlChange, 0, 40, &on));
    let cc = MidiEvent::ControlChange { channel: 1, cc: 40, value: 3 };
    assert!(mapping_matches(MidiMappingType::ControlChange, 0, 40, &cc));
    assert!(!mapping_matches(MidiMappingType::Note, 0, 40, &cc));
}

#[test]
fn mapping_actions_by_control_id() {
    let on = MidiEvent::NoteOn { channel: 0, note: 36, velocity: 100 };
    let off = MidiEvent::NoteOff { channel: 0, note: 36 };
    let cc = MidiEvent::ControlChange { channel: 0, cc: 7, value: 33 };
    let n = MidiMappingType::Note;
    let c = MidiMappingType::ControlChange;
    assert_eq!(mapping_action(n, 0, 36, "pad.trigger.4", &on), Some(MidiAction::PadTrigger { pad: 4, velocity: 100 }));
    assert_eq!(mapping_action(n, 0, 36, "pad.trigger.4", &off), Some(MidiAction::PadRelease { pad: 4 }));
    assert_eq!(mapping_action(n, 0, 36, "pad.trigger.x", &on), None);
    assert_eq!(mapping_action(n, 0, 37, "pad.trigger.4", &on), None);
    assert_eq!(mapping_action(c, 0, 7, "pad.volume.2", &cc), Some(MidiAction::PadVolume { pad: 2, value: 33 }));
    assert_eq!(mapping_action(c, 0, 7, "pad.speed.+12", &cc), Some(MidiAction::PadSpeed { pad: 12, value: 33 }));
    assert_eq!(mapping_action(c, 0, 7, "pad.pan.2", &cc), None);
    assert_eq!(mapping_action(c, 0, 7, "global.bpm", &cc), Some(MidiAction::SetBpm { value: 33 }));
    assert_eq!(mapping_action(c, 0, 7, "global.bpm.x", &cc), None);
    assert_eq!(mapping_action(c, 0, 7, "pad.volume.-1", &cc), None);
    assert_eq!(mapping_action(c, 0, 7, "", &cc), None);
}

#[test]
fn pad_control_ids_read_back() {
    assert_eq!(pad_control_id("trigger", 7), "pad.trigger.7");
    assert_eq!(pad_control_id("volume", 15), "pad.volume.15");
    let id = pad_control_id("trigger", 123);
    let on = MidiEvent::NoteOn { channel: 2, note: 50, velocity: 9 };
    assert_eq!(
        mapping_action(MidiMappingType::Note, 2, 50, &id, &on),
        Some(MidiAction::PadTrigger { pad: 123, velocity: 9 })
    );
}

#[test]
fn midi_learn_bindings() {
    assert_eq!(
        learned_binding(&MidiEvent::NoteOn { channel: 3, note: 60, velocity: 1 }),
        Some((MidiMappingType::Note, 3, 60))
    );
    assert_eq!(
        learned_binding(&MidiEvent::ControlChange { channel: 1, cc: 74, value: 0 }),
        Some((MidiMappingType::ControlChange, 1, 74))
    );
    assert_eq!(learned_binding(&MidiEvent::NoteOff { channel: 1, note: 2 }), None);
}

#[test]
fn mapping_defaults() {
    assert_eq!(default_curve(), "linear");
    assert!(default_true());
}

#[test]
fn mapping_table_lookup_and_replacement() {
    let mut config: MidiMappingConfig<u8> = MidiMappingConfig::new();
    assert!(config.use_default_note_mapping);
    config.add_mapping(MidiMappingEntry::pad_note(0, 36, 0, 1));
    config.add_mapping(MidiMappingEntry::pad_cc(3, "volume", 7, 2, 2));
    config.add_mapping(MidiMappingEntry::global_bpm(1, 0, 3));
    assert_eq!(config.mappings.len(), 3);
    let on = MidiEvent::NoteOn { channel: 5, note: 36, velocity: 100 };
    let found = config.find_mapping(&on).unwrap();
    assert_eq!(found.control_id, "pad.trigger.0");
    assert_eq!(found.to_action(&on), Some(MidiAction::PadTrigger { pad: 0, velocity: 100 }));
    let cc = MidiEvent::ControlChange { channel: 1, cc: 7, value: 9 };
    assert!(config.find_mapping(&cc).is_none());
    // replacing a control keeps one mapping for it, at the end
    config.add_mapping(MidiMappingEntry::pad_note(0, 40, 0, 4));
    assert_eq!(config.mappings.len(), 3);
    assert_eq!(config.mappings[2].number, 40);
    assert_eq!(config.mappings[2].range, 4);
    assert!(config.find_mapping(&on).is_none());
    config.remove_mapping("global.bpm");
    assert_eq!(config.mappings.len(), 2);
    assert_eq!(config.mappings[0].control_id, "pad.volume.3");
    assert!(config.mappings[0].matches(&MidiEvent::ControlChange { channel: 2, cc: 7, value: 0 }));
}
