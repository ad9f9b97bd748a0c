//! Blend modes and colour spaces of the 8-channel video mixer.

use vstd::prelude::*;

verus! {

/// Blend/Mix mode for channel mixing
#[derive(Debug, Clone, Copy, PartialEq, Eq, Structural)]
pub enum MixMode {
    /// Normal alpha blending (src over dst)
    Normal,
    /// Additive blending (src + dst)
    Add,
    /// Multiply blending (src * dst)
    Multiply,
    /// Screen blending (1 - (1-src) * (1-dst))
    Screen,
    /// Overlay blending
    Overlay,
    /// Soft light blending
    SoftLight,
    /// Hard light blending
    HardLight,
    /// Difference blending
    Difference,
    /// Lighten only
    Lighten,
    /// Darken only
    Darken,
    /// Chroma key (green/blue screen)
    ChromaKey,
    /// Luma key (brightness-based)
    LumaKey,
}

/// Index of the blend mode in the mixer shader.
pub open spec fn spec_shader_index(m: MixMode) -> u32 {
    match m {
        MixMode::Normal => 0,
        MixMode::Add => 1,
        MixMode::Multiply => 2,
        MixMode::Screen => 3,
        MixMode::Overlay => 4,
        MixMode::SoftLight => 5,
        MixMode::HardLight => 6,
        MixMode::Difference => 7,
        MixMode::Lighten => 8,
        MixMode::Darken => 9,
        MixMode::ChromaKey => 10,
        MixMode::LumaKey => 11,
    }
}

/// Label of the blend mode in the user interface.
pub open spec fn spec_mix_display_name(m: MixMode) -> Seq<char> {
    match m {
        MixMode::Normal => "Normal"@,
        MixMode::Add => "Add"@,
        MixMode::Multiply => "Multiply"@,
        MixMode::Screen => "Screen"@,
        MixMode::Overlay => "Overlay"@,
        MixMode::SoftLight => "Soft Light"@,
        MixMode::HardLight => "Hard Light"@,
        MixMode::Difference => "Difference"@,
        MixMode::Lighten => "Lighten"@,
        MixMode::Darken => "Darken"@,
        MixMode::ChromaKey => "Chroma Key"@,
        MixMode::LumaKey => "Luma Key"@,
    }
}

/// All modes, in shader-index order.
pub open spec fn spec_all_mix_modes() -> Seq<MixMode> {
    seq![
        MixMode::Normal,
        MixMode::Add,
        MixMode::Multiply,
        MixMode::Screen,
        MixMode::Overlay,
        MixMode::SoftLight,
        MixMode::HardLight,
        MixMode::Difference,
        MixMode::Lighten,
        MixMode::Darken,
        MixMode::ChromaKey,
        MixMode::LumaKey,
    ]
}

impl MixMode {
    /// Convert to shader blend mode index
    pub fn to_shader_index(&self) -> (i: u32)
        ensures
            i == spec_shader_index(*self),
    {
        match self {
            MixMode::Normal => 0,
            MixMode::Add => 1,
            MixMode::Multiply => 2,
            MixMode::Screen => 3,
            MixMode::Overlay => 4,
            MixMode::SoftLight => 5,
            MixMode::HardLight => 6,
            MixMode::Difference => 7,
            MixMode::Lighten => 8,
            MixMode::Darken => 9,
            MixMode::ChromaKey => 10,
            MixMode::LumaKey => 11,
        }
    }

    /// Get display name for UI
    pub fn display_name(&self) -> (name: &'static str)
        ensures
            name@ == spec_mix_display_name(*self),
    {
        match self {
            MixMode::Normal => "Normal",
            MixMode::Add => "Add",
            MixMode::Multiply => "Multiply",
            MixMode::Screen => "Screen",
            MixMode::Overlay => "Overlay",
            MixMode::SoftLight => "Soft Light",
            MixMode::HardLight => "Hard Light",
            MixMode::Difference => "Difference",
            MixMode::Lighten => "Lighten",
            MixMode::Darken => "Darken",
            MixMode::ChromaKey => "Chroma Key",
            MixMode::LumaKey => "Luma Key",
        }
    }

    /// Get all available modes
    pub fn all_modes() -> (modes: &'static [MixMode])
        ensures
            modes@ == spec_all_mix_modes(),
    {
        &[
            MixMode::Normal,
            MixMode::Add,
            MixMode::Multiply,
            MixMode::Screen,
            MixMode::Overlay,
            MixMode::SoftLight,
            MixMode::HardLight,
            MixMode::Difference,
            MixMode::Lighten,
            MixMode::Darken,
            MixMode::ChromaKey,
            MixMode::LumaKey,
        ]
    }

    /// Check if this mode uses keying parameters
    pub fn is_keying(&self) -> (b: bool)
        ensures
            b == (*self == MixMode::ChromaKey || *self == MixMode::LumaKey),
    {
        match self {
            MixMode::ChromaKey | MixMode::LumaKey => true,
            _ => false,
        }
    }
}

impl Default for MixMode {
    fn default() -> (m: Self)
        ensures
            m == MixMode::Normal,
    {
        MixMode::Normal
    }
}

/// The list of all modes is indexed by shader index: every mode occurs in it
/// exactly at its own shader index, so the index identifies the mode.
pub proof fn lemma_all_modes_indexed_by_shader_index(m: MixMode)
    ensures
        spec_all_mix_modes().len() == 12,
        (spec_shader_index(m) as int) < 12,
        spec_all_mix_modes()[spec_shader_index(m) as int] == m,
        forall|other: MixMode| spec_shader_index(other) == spec_shader_index(m) ==> other == m,
{
}

/// Color space for video rendering
#[derive(Debug, Clone, Copy, PartialEq, Eq, Structural)]
pub enum ColorSpace {
    /// Standard RGB (no conversion needed)
    Rgb,
    /// YCoCg (requires shader conversion to RGB)
    YcoCg,
}

impl Default for ColorSpace {
    fn default() -> (c: Self)
        ensures
            c == ColorSpace::Rgb,
    {
        ColorSpace::Rgb
    }
}

} // verus!
