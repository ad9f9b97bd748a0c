//! Keyboard shortcuts of the output and control windows. The windowing
//! system delivers the key events; these functions decide what they ask for
//! and track the Shift modifier.

use vstd::prelude::*;
use crate::util::text::{spec_lowercase, str_eq, str_to_lowercase};

verus! {

/// A key, as far as the shortcuts tell keys apart.
#[derive(Debug, Clone, PartialEq, Eq)]
pub enum KeyInput {
    Shift,
    Escape,
    /// A key that types text (the text it types)
    Character(String),
    Other,
}

/// What a key event asks of the application.
#[derive(Debug, Clone, Copy, PartialEq, Eq, Structural)]
pub enum KeyAction {
    Nothing,
    /// Quit the application
    Exit,
    /// Switch the output window in or out of fullscreen
    ToggleFullscreen,
    /// Start or stop the sequencer
    TogglePlayback,
    /// Put the sequencer back on beat 1
    ResetPosition,
    /// A tap of tap tempo
    TapTempo,
}

/// The Shift state after a key event: a Shift key sets it to whether it
/// went down; other keys leave it.
pub open spec fn spec_shift_after(shift: bool, key: KeyInput, pressed: bool) -> bool {
    match key {
        KeyInput::Shift => pressed,
        _ => shift,
    }
}

/// The shortcut a key press gives with Shift in the given state: Space
/// starts or stops the sequencer and Shift+Space puts it back on beat 1,
/// Shift+T taps the tempo, Shift+F toggles fullscreen, and Escape quits from
/// the output window. Letters count in either case.
pub open spec fn spec_shortcut(output_window: bool, shift: bool, key: KeyInput) -> KeyAction {
    match key {
        KeyInput::Escape => if output_window { KeyAction::Exit } else { KeyAction::Nothing },
        KeyInput::Character(text) => {
            let k = spec_lowercase(text@);
            if k == " "@ {
                if shift { KeyAction::ResetPosition } else { KeyAction::TogglePlayback }
            } else if shift && k == "t"@ {
                KeyAction::TapTempo
            } else if shift && k == "f"@ {
                KeyAction::ToggleFullscreen
            } else {
                KeyAction::Nothing
            }
        },
        _ => KeyAction::Nothing,
    }
}

/// Handle a key event of the output window (`output_window`) or of the
/// control window, updating the Shift state. Releases ask for nothing.
pub fn handle_key(shift: &mut bool, output_window: bool, key: &KeyInput, pressed: bool) -> (action:
    KeyAction)
    ensures
        *final(shift) == spec_shift_after(*old(shift), *key, pressed),
        action == if pressed {
            spec_shortcut(output_window, *final(shift), *key)
        } else {
            KeyAction::Nothing
        },
{
    if let KeyInput::Shift = key {
        *shift = pressed;
    }
    if !pressed {
        return KeyAction::Nothing;
    }
    match key {
        KeyInput::Escape => if output_window {
            KeyAction::Exit
        } else {
            KeyAction::Nothing
        },
        KeyInput::Character(text) => {
            let k = str_to_lowercase(text.as_str());
            if str_eq(k.as_str(), " ") {
                if *shift {
                    KeyAction::ResetPosition
                } else {
                    KeyAction::TogglePlayback
                }
            } else if *shift && str_eq(k.as_str(), "t") {
                KeyAction::TapTempo
            } else if *shift && str_eq(k.as_str(), "f") {
                KeyAction::ToggleFullscreen
            } else {
                KeyAction::Nothing
            }
        },
        _ => KeyAction::Nothing,
    }
}

/// Without Shift held, Space is the only text key that does anything; with
/// Shift held, Space, T and F are the shortcuts.
pub proof fn lemma_unshifted_keys(output_window: bool, text: String)
    ensures
        spec_shortcut(output_window, false, KeyInput::Character(text)) != KeyAction::Nothing
            ==> spec_lowercase(text@) == " "@,
        spec_shortcut(output_window, true, KeyInput::Character(text)) != KeyAction::Nothing
            ==> spec_lowercase(text@) == " "@ || spec_lowercase(text@) == "t"@
            || spec_lowercase(text@) == "f"@,
{
}

/// The documented shortcuts: Space starts or stops the sequencer and
/// Shift+Space puts it back on beat 1; Shift+T (either case) taps the tempo;
/// Shift+F (either case) toggles fullscreen.
pub proof fn lemma_documented_shortcuts(output_window: bool, text: String)
    ensures
        text@ == " "@ ==> spec_shortcut(output_window, false, KeyInput::Character(text))
            == KeyAction::TogglePlayback && spec_shortcut(output_window, true, KeyInput::Character(text))
            == KeyAction::ResetPosition,
        text@ == "t"@ || text@ == "T"@ ==> spec_shortcut(output_window, true, KeyInput::Character(text))
            == KeyAction::TapTempo,
        text@ == "f"@ || text@ == "F"@ ==> spec_shortcut(output_window, true, KeyInput::Character(text))
            == KeyAction::ToggleFullscreen,
{
    reveal_strlit(" ");
    reveal_strlit("t");
    reveal_strlit("T");
    reveal_strlit("f");
    reveal_strlit("F");
    assert(spec_lowercase(" "@) =~= " "@);
    assert(spec_lowercase("t"@) =~= "t"@);
    assert(spec_lowercase("T"@) =~= "t"@);
    assert(spec_lowercase("f"@) =~= "f"@);
    assert(spec_lowercase("F"@) =~= "f"@);
    assert(" "@ != "t"@ && " "@ != "f"@ && "t"@ != "f"@) by {
        assert(" "@[0] != "t"@[0] && " "@[0] != "f"@[0] && "t"@[0] != "f"@[0]);
    }
}

} // verus!
