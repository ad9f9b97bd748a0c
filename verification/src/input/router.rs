//! What input events do to the pads of the current bank. MIDI and OSC
//! arrive through channels in the application, which also sets the pad
//! levels and speeds (floating point) that events carry.

use vstd::prelude::*;
use crate::sampler::bank::{spec_stopped, SampleBank};
use crate::sampler::pad::{spec_playing_after_trigger, PadPlayState, TriggerMode};

verus! {

/// The part of an input event that switches pad playback.
#[derive(Debug, Clone, Copy, PartialEq, Eq, Structural)]
pub enum PadEvent {
    /// Trigger a pad (press)
    Trigger { pad: usize },
    /// Release a pad (for gate mode)
    Release { pad: usize },
    /// Stop all pads
    StopAll,
}

/// The pads after an event: a trigger triggers its pad; a release releases
/// its pad only when the pad is in Gate mode (pads in other modes keep
/// playing and stay held); stop-all stops every pad. Events for pads past
/// the sixteenth change nothing.
pub open spec fn spec_pads_after(pads: Seq<PadPlayState>, event: PadEvent) -> Seq<PadPlayState> {
    match event {
        PadEvent::Trigger { pad } => if pad < 16 {
            let p = pads[pad as int];
            pads.update(
                pad as int,
                PadPlayState {
                    trigger_mode: p.trigger_mode,
                    is_playing: spec_playing_after_trigger(p.trigger_mode, p.is_playing),
                    is_triggered: true,
                },
            )
        } else {
            pads
        },
        PadEvent::Release { pad } => if pad < 16 && pads[pad as int].trigger_mode
            == TriggerMode::Gate {
            let p = pads[pad as int];
            pads.update(
                pad as int,
                PadPlayState { trigger_mode: p.trigger_mode, is_playing: false, is_triggered: false },
            )
        } else {
            pads
        },
        PadEvent::StopAll => Seq::new(16, |i: int| spec_stopped(pads[i])),
    }
}

/// Apply an input event to the pads of the current bank.
pub fn handle_pad_event(bank: &mut SampleBank, event: PadEvent)
    ensures
        final(bank).pads@ == spec_pads_after(old(bank).pads@, event),
        final(bank).name == old(bank).name,
{
    match event {
        PadEvent::Trigger { pad } => {
            bank.trigger_pad(pad);
        },
        PadEvent::Release { pad } => {
            if pad < 16 && bank.pads[pad].trigger_mode == TriggerMode::Gate {
                bank.release_pad(pad);
            }
        },
        PadEvent::StopAll => {
            bank.stop_all();
            proof {
                assert(bank.pads@ =~= Seq::new(16, |i: int| spec_stopped(old(bank).pads@[i])));
            }
        },
    }
}

/// A release never stops a Latch or One-Shot pad, nor lets go of it.
pub proof fn lemma_release_only_gate(pads: Seq<PadPlayState>, pad: usize)
    requires
        pads.len() == 16,
        pad < 16,
        pads[pad as int].trigger_mode != TriggerMode::Gate,
    ensures
        spec_pads_after(pads, PadEvent::Release { pad }) == pads,
{
}

} // verus!
