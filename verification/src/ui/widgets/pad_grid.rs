//! 4x4 pad grid widget

use vstd::prelude::*;
use crate::sampler::pad::{
    spec_playing_after_release, spec_playing_after_trigger, PadPlayState, TriggerMode,
};

verus! {

/// The 4x4 pad grid; it keeps no state of its own.
#[derive(Debug, Clone, Copy, PartialEq, Eq, Structural)]
pub struct PadGrid;

impl PadGrid {
    pub fn new() -> (g: Self)
        ensures
            g == PadGrid,
    {
        PadGrid
    }
}

impl Default for PadGrid {
    fn default() -> (g: Self)
        ensures
            g == PadGrid,
    {
        Self::new()
    }
}

/// A pad after a trigger.
pub open spec fn spec_triggered(p: PadPlayState) -> PadPlayState {
    PadPlayState {
        trigger_mode: p.trigger_mode,
        is_playing: spec_playing_after_trigger(p.trigger_mode, p.is_playing),
        is_triggered: true,
    }
}

/// A pad after a release.
pub open spec fn spec_released(p: PadPlayState) -> PadPlayState {
    PadPlayState {
        trigger_mode: p.trigger_mode,
        is_playing: spec_playing_after_release(p.trigger_mode, p.is_playing),
        is_triggered: false,
    }
}

/// Mouse input on a pad button in one frame. A Gate pad plays while the
/// button is held: pressing the button triggers a pad not already held and
/// remembers that the mouse holds it; letting go releases the pad only when
/// the mouse was the one holding it (a pad held from MIDI stays held). Latch
/// and One-Shot pads trigger on a click.
pub fn pad_button_input(
    pad: &mut PadPlayState,
    mouse_triggered: &mut bool,
    button_active: bool,
    button_clicked: bool,
)
    ensures
        old(pad).trigger_mode == TriggerMode::Gate ==> {
            if button_active && !old(pad).is_triggered {
                *final(pad) == spec_triggered(*old(pad)) && *final(mouse_triggered)
            } else if !button_active && old(pad).is_triggered && *old(mouse_triggered) {
                *final(pad) == spec_released(*old(pad)) && !*final(mouse_triggered)
            } else {
                *final(pad) == *old(pad) && *final(mouse_triggered) == *old(mouse_triggered)
            }
        },
        old(pad).trigger_mode != TriggerMode::Gate ==> {
            &&& *final(pad) == if button_clicked { spec_triggered(*old(pad)) } else { *old(pad) }
            &&& *final(mouse_triggered) == *old(mouse_triggered)
        },
{
    match pad.trigger_mode {
        TriggerMode::Gate => {
            if button_active && !pad.is_triggered {
                pad.trigger();
                *mouse_triggered = true;
            } else if !button_active && pad.is_triggered && *mouse_triggered {
                pad.release();
                *mouse_triggered = false;
            }
        },
        _ => {
            if button_clicked {
                pad.trigger();
            }
        },
    }
}

} // verus!
