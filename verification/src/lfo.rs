//! LFO (Low Frequency Oscillator) waveforms and modulation targets.
//!
//! 4 LFOs that can modulate pad opacity, speed, or master opacity.

use vstd::prelude::*;
use crate::util::text::{decimal_between, spec_decimal};

verus! {

/// LFO Waveforms
#[derive(Debug, Clone, Copy, PartialEq, Eq, Hash, Structural)]
pub enum Waveform {
    Sine,
    Triangle,
    Ramp,
    Saw,
    Square,
}

pub open spec fn spec_waveform_name(w: Waveform) -> Seq<char> {
    match w {
        Waveform::Sine => "Sine"@,
        Waveform::Triangle => "Triangle"@,
        Waveform::Ramp => "Ramp"@,
        Waveform::Saw => "Saw"@,
        Waveform::Square => "Square"@,
    }
}

/// The waveforms in the order the user interface offers them.
pub open spec fn spec_all_waveforms() -> Seq<Waveform> {
    seq![Waveform::Sine, Waveform::Triangle, Waveform::Ramp, Waveform::Saw, Waveform::Square]
}

impl Waveform {
    pub fn name(&self) -> (n: &'static str)
        ensures
            n@ == spec_waveform_name(*self),
    {
        match self {
            Waveform::Sine => "Sine",
            Waveform::Triangle => "Triangle",
            Waveform::Ramp => "Ramp",
            Waveform::Saw => "Saw",
            Waveform::Square => "Square",
        }
    }

    pub fn all() -> (w: &'static [Waveform])
        ensures
            w@ == spec_all_waveforms(),
    {
        &[Waveform::Sine, Waveform::Triangle, Waveform::Ramp, Waveform::Saw, Waveform::Square]
    }
}

impl Default for Waveform {
    fn default() -> (w: Self)
        ensures
            w == Waveform::Sine,
    {
        Waveform::Sine
    }
}

/// Target parameter for LFO modulation
#[derive(Debug, Clone, Copy, PartialEq, Eq, Hash, Structural)]
pub enum LfoTarget {
    /// No modulation target (the LFO is unassigned)
    NoTarget,
    /// Modulate a specific pad's opacity (index 0-15)
    PadOpacity(usize),
    /// Modulate a specific pad's speed (index 0-15)
    PadSpeed(usize),
    /// Modulate master output opacity
    MasterOpacity,
}

/// Label of an LFO target; pads are numbered from 1 for display.
pub open spec fn spec_lfo_target_name(t: LfoTarget) -> Seq<char> {
    match t {
        LfoTarget::NoTarget => "None"@,
        LfoTarget::PadOpacity(i) => "Pad "@ + spec_decimal(i as nat + 1) + " Opacity"@,
        LfoTarget::PadSpeed(i) => "Pad "@ + spec_decimal(i as nat + 1) + " Speed"@,
        LfoTarget::MasterOpacity => "Master Opacity"@,
    }
}

impl LfoTarget {
    pub fn name(&self) -> (n: String)
        requires
            self matches LfoTarget::PadOpacity(i) ==> i < usize::MAX,
            self matches LfoTarget::PadSpeed(i) ==> i < usize::MAX,
        ensures
            n@ == spec_lfo_target_name(*self),
    {
        match self {
            LfoTarget::NoTarget => String::from_str("None"),
            LfoTarget::PadOpacity(i) => decimal_between("Pad ", *i + 1, " Opacity"),
            LfoTarget::PadSpeed(i) => decimal_between("Pad ", *i + 1, " Speed"),
            LfoTarget::MasterOpacity => String::from_str("Master Opacity"),
        }
    }
}

impl Default for LfoTarget {
    fn default() -> (t: Self)
        ensures
            t == LfoTarget::NoTarget,
    {
        LfoTarget::NoTarget
    }
}

} // verus!
