use rustjay_404::app::shortcuts::{handle_key, KeyAction, KeyInput};
use rustjay_404::input::events::MidiEvent;
use rustjay_404::input::midi_mapping::{LearnedMapping, MidiLearnState, MidiMappingType, LEARN_TIMEOUT_MS};

fn key(text: &str) -> KeyInput {
    KeyInput::Character(text.to_string())
}

#[test]
fn output_window_shortcuts() {
    let mut shift = false;
    assert_eq!(handle_key(&mut shift, true, &KeyInput::Escape, true), KeyAction::Exit);
    assert_eq!(handle_key(&mut shift, true, &key(" "), true), KeyAction::TogglePlayback);
    assert_eq!(handle_key(&mut shift, true, &key("f"), true), KeyAction::Nothing);
    assert_eq!(handle_key(&mut shift, true, &key("t"), true), KeyAction::Nothing);
    assert_eq!(handle_key(&mut shift, true, &KeyInput::Shift, true), KeyAction::Nothing);
    assert!(shift);
    assert_eq!(handle_key(&mut shift, true, &key("F"), true), KeyAction::ToggleFullscreen);
    assert_eq!(handle_key(&mut shift, true, &key("T"), true), KeyAction::TapTempo);
    assert_eq!(handle_key(&mut shift, true, &key(" "), true), KeyAction::ResetPosition);
    assert_eq!(handle_key(&mut shift, true, &key(" "), false), KeyAction::Nothing);
    assert_eq!(handle_key(&mut shift, true, &KeyInput::Shift, false), KeyAction::Nothing);
    assert!(!shift);
    assert_eq!(handle_key(&mut shift, true, &key("x"), true), KeyAction::Nothing);
}

#[test]
fn control_window_shortcuts() {
    let mut shift = true;
    assert_eq!(handle_key(&mut shift, false, &KeyInput::Escape, true), KeyAction::Nothing);
    assert_eq!(handle_key(&mut shift, false, &key("f"), true), KeyAction::ToggleFullscreen);
    assert_eq!(handle_key(&mut shift, false, &key(" "), true), KeyAction::ResetPosition);
    assert_eq!(handle_key(&mut shift, false, &KeyInput::Other, true), KeyAction::Nothing);
}

#[test]
fn midi_learn_binds_the_next_note_or_controller() {
    let mut learn = MidiLearnState::new();
    assert!(!learn.is_active(0));
    assert_eq!(learn.target(0), None);
    learn.start("pad.volume.3", 1_000);
    assert!(learn.is_active(1_000));
    assert!(learn.is_learning("pad.volume.3", 5_000));
    assert!(!learn.is_learning("pad.speed.3", 5_000));
    assert_eq!(learn.target(2_000), Some("pad.volume.3"));
    // a note off teaches nothing
    assert_eq!(learn.handle_message(&MidiEvent::NoteOff { channel: 0, note: 1 }, 2_000), None);
    assert!(learn.is_active(2_000));
    let m = learn.handle_message(&MidiEvent::ControlChange { channel: 2, cc: 7, value: 90 }, 3_000);
    assert_eq!(
        m,
        Some(LearnedMapping {
            control_id: "pad.volume.3".to_string(),
            msg_type: MidiMappingType::ControlChange,
            channel: 2,
            number: 7,
        })
    );
    assert!(!learn.is_active(3_000));
    assert_eq!(learn.handle_message(&MidiEvent::NoteOn { channel: 0, note: 40, velocity: 1 }, 3_000), None);
}

#[test]
fn midi_learn_times_out_after_ten_seconds() {
    let mut learn = MidiLearnState::default();
    learn.start("global.bpm", 500);
    assert!(learn.is_active(500 + LEARN_TIMEOUT_MS));
    assert!(!learn.is_active(501 + LEARN_TIMEOUT_MS));
    assert_eq!(learn.handle_message(&MidiEvent::NoteOn { channel: 0, note: 40, velocity: 1 }, 20_000), None);
    learn.start("global.bpm", 30_000);
    learn.cancel();
    assert!(!learn.is_active(30_000));
    assert_eq!(learn.target_control, "");
}
