//! SP-404 style pad settings: trigger behaviour and mixing modes.

use vstd::prelude::*;

verus! {

/// Trigger modes - SP-404 style
#[derive(Debug, Clone, Copy, PartialEq, Eq, Structural)]
pub enum TriggerMode {
    /// Play while held, stop on release
    Gate,
    /// Toggle on/off with each trigger
    Latch,
    /// Play once and stop at end
    OneShot,
}

impl Default for TriggerMode {
    fn default() -> (m: Self)
        ensures
            m == TriggerMode::Gate,
    {
        TriggerMode::Gate
    }
}

/// Blend modes for mixing (legacy - mapped to MixMode in engine)
#[derive(Debug, Clone, Copy, PartialEq, Eq, Structural)]
pub enum BlendMode {
    Replace,
    Add,
    Multiply,
    Screen,
    Alpha,
}

impl Default for BlendMode {
    fn default() -> (m: Self)
        ensures
            m == BlendMode::Replace,
    {
        BlendMode::Replace
    }
}

/// Mix mode including keying effects
#[derive(Debug, Clone, Copy, PartialEq, Eq, Structural)]
pub enum PadMixMode {
    Normal,
    Add,
    Multiply,
    Screen,
    Overlay,
    SoftLight,
    HardLight,
    Difference,
    Lighten,
    Darken,
    ChromaKey,
    LumaKey,
}

impl Default for PadMixMode {
    fn default() -> (m: Self)
        ensures
            m == PadMixMode::Normal,
    {
        PadMixMode::Normal
    }
}


/// The playback switches of a pad (SP-404 style triggering). The playback
/// position, speed and level are floating point and live with the pad in
/// the application; `trigger` tells it when to restart from the in-point.
#[derive(Debug, Clone, Copy, PartialEq, Eq, Structural)]
pub struct PadPlayState {
    pub trigger_mode: TriggerMode,
    pub is_playing: bool,
    /// Currently held (for GATE mode)
    pub is_triggered: bool,
}

/// Playback after a trigger: Gate and One-Shot start playing, Latch
/// toggles.
pub open spec fn spec_playing_after_trigger(mode: TriggerMode, playing: bool) -> bool {
    match mode {
        TriggerMode::Latch => !playing,
        _ => true,
    }
}

/// Playback after a release: only Gate stops.
pub open spec fn spec_playing_after_release(mode: TriggerMode, playing: bool) -> bool {
    match mode {
        TriggerMode::Gate => false,
        _ => playing,
    }
}

impl PadPlayState {
    /// A stopped, released pad in the given mode.
    pub fn new(trigger_mode: TriggerMode) -> (s: Self)
        ensures
            s == (PadPlayState { trigger_mode, is_playing: false, is_triggered: false }),
    {
        PadPlayState { trigger_mode, is_playing: false, is_triggered: false }
    }

    /// Trigger the pad (start playback). Returns whether playback (re)starts
    /// from the in-point: always in Gate and One-Shot mode, in Latch mode
    /// when the trigger switched playback on.
    pub fn trigger(&mut self) -> (restart: bool)
        ensures
            final(self).trigger_mode == old(self).trigger_mode,
            final(self).is_triggered,
            final(self).is_playing == spec_playing_after_trigger(
                old(self).trigger_mode,
                old(self).is_playing,
            ),
            restart == final(self).is_playing,
    {
        self.is_triggered = true;
        match self.trigger_mode {
            TriggerMode::Gate => {
                self.is_playing = true;
            },
            TriggerMode::Latch => {
                self.is_playing = !self.is_playing;
            },
            TriggerMode::OneShot => {
                self.is_playing = true;
            },
        }
        self.is_playing
    }

    /// Release the pad (for GATE mode)
    pub fn release(&mut self)
        ensures
            final(self).trigger_mode == old(self).trigger_mode,
            !final(self).is_triggered,
            final(self).is_playing == spec_playing_after_release(
                old(self).trigger_mode,
                old(self).is_playing,
            ),
    {
        self.is_triggered = false;
        if self.trigger_mode == TriggerMode::Gate {
            self.is_playing = false;
        }
    }

    /// Stop playback (the application rewinds to the in-point).
    pub fn stop(&mut self)
        ensures
            *final(self) == (PadPlayState {
                trigger_mode: old(self).trigger_mode,
                is_playing: false,
                is_triggered: false,
            }),
    {
        self.is_playing = false;
        self.is_triggered = false;
    }
}

/// The trigger modes behave as the pad labels promise: a Gate pad plays
/// while held and stops on release; a Latch pad toggles on each trigger and
/// ignores releases; a One-Shot pad starts on trigger and keeps playing
/// when released.
pub proof fn lemma_trigger_modes(playing: bool)
    ensures
        spec_playing_after_trigger(TriggerMode::Gate, playing),
        !spec_playing_after_release(
            TriggerMode::Gate,
            spec_playing_after_trigger(TriggerMode::Gate, playing),
        ),
        spec_playing_after_trigger(TriggerMode::Latch, playing) == !playing,
        spec_playing_after_trigger(
            TriggerMode::Latch,
            spec_playing_after_trigger(TriggerMode::Latch, playing),
        ) == playing,
        spec_playing_after_release(TriggerMode::Latch, playing) == playing,
        spec_playing_after_release(
            TriggerMode::OneShot,
            spec_playing_after_trigger(TriggerMode::OneShot, playing),
        ),
{
}

/// What playback does when it runs past the end of the clip (forward) or
/// before its start (reverse).
#[derive(Debug, Clone, Copy, PartialEq, Eq, Structural)]
pub enum ClipEdgeAction {
    /// Continue seamlessly from the other end of the clip
    Wrap,
    /// Stay on the edge frame while the pad is held
    Hold,
    /// Stop playback on the edge frame
    Stop,
}

/// Forward playback wraps when looping or in Latch mode, holds the last
/// frame in Gate mode without loop, and stops otherwise (One-Shot). Reverse
/// playback wraps when looping, holds the first frame in Gate mode without
/// loop, and stops otherwise (Latch and One-Shot without loop).
pub open spec fn spec_clip_edge_action(forward: bool, loop_enabled: bool, mode: TriggerMode) -> ClipEdgeAction {
    if forward {
        if loop_enabled || mode == TriggerMode::Latch || mode == TriggerMode::Gate {
            if mode == TriggerMode::Gate && !loop_enabled {
                ClipEdgeAction::Hold
            } else {
                ClipEdgeAction::Wrap
            }
        } else {
            ClipEdgeAction::Stop
        }
    } else {
        if loop_enabled || mode == TriggerMode::Gate {
            if mode == TriggerMode::Gate && !loop_enabled {
                ClipEdgeAction::Hold
            } else {
                ClipEdgeAction::Wrap
            }
        } else {
            ClipEdgeAction::Stop
        }
    }
}

/// Decide what playback does at the edge of the clip.
pub fn clip_edge_action(forward: bool, loop_enabled: bool, mode: TriggerMode) -> (a: ClipEdgeAction)
    ensures
        a == spec_clip_edge_action(forward, loop_enabled, mode),
{
    if forward {
        if loop_enabled || mode == TriggerMode::Latch || mode == TriggerMode::Gate {
            if mode == TriggerMode::Gate && !loop_enabled {
                ClipEdgeAction::Hold
            } else {
                ClipEdgeAction::Wrap
            }
        } else {
            ClipEdgeAction::Stop
        }
    } else {
        if loop_enabled || mode == TriggerMode::Gate {
            if mode == TriggerMode::Gate && !loop_enabled {
                ClipEdgeAction::Hold
            } else {
                ClipEdgeAction::Wrap
            }
        } else {
            ClipEdgeAction::Stop
        }
    }
}

/// Looping clips never stop at an edge, and One-Shot clips without loop
/// always stop: a one-shot plays once.
pub proof fn lemma_clip_edges(forward: bool, mode: TriggerMode)
    ensures
        spec_clip_edge_action(forward, true, mode) == ClipEdgeAction::Wrap,
        spec_clip_edge_action(forward, false, TriggerMode::OneShot) == ClipEdgeAction::Stop,
        spec_clip_edge_action(forward, false, TriggerMode::Gate) == ClipEdgeAction::Hold,
{
}

/// Default color based on pad index (SP-404 style), repeating every 16 pads.
pub open spec fn spec_default_color(index: usize) -> [u8; 3] {
    let k = index % 16;
    if k == 0 { [255, 100, 100] }
    else if k == 1 { [255, 150, 50] }
    else if k == 2 { [255, 220, 50] }
    else if k == 3 { [150, 255, 100] }
    else if k == 4 { [100, 255, 150] }
    else if k == 5 { [100, 200, 255] }
    else if k == 6 { [150, 100, 255] }
    else if k == 7 { [255, 100, 200] }
    else if k == 8 { [255, 80, 80] }
    else if k == 9 { [255, 180, 80] }
    else if k == 10 { [220, 255, 80] }
    else if k == 11 { [80, 255, 120] }
    else if k == 12 { [80, 220, 255] }
    else if k == 13 { [120, 100, 255] }
    else if k == 14 { [220, 80, 255] }
    else { [255, 80, 180] }
}

/// Default color based on pad index (SP-404 style)
pub fn default_color(index: usize) -> (c: [u8; 3])
    ensures
        c == spec_default_color(index),
{
    let colors: [[u8; 3]; 16] = [
        [255, 100, 100],
        [255, 150, 50],
        [255, 220, 50],
        [150, 255, 100],
        [100, 255, 150],
        [100, 200, 255],
        [150, 100, 255],
        [255, 100, 200],
        [255, 80, 80],
        [255, 180, 80],
        [220, 255, 80],
        [80, 255, 120],
        [80, 220, 255],
        [120, 100, 255],
        [220, 80, 255],
        [255, 80, 180],
    ];
    colors[index % 16]
}
} // verus!
