//! # Preset Management
//!
//! Serializable mirrors of the pad settings, the rules that turn preset
//! names into file names and back, and the bookkeeping of preset banks.

use vstd::prelude::*;
use crate::sampler::pad::{BlendMode, PadMixMode, TriggerMode};
use crate::util::order::{
    lemma_string_views_push, lemma_string_views_take_succ, lex_le, lex_lt, sort_strings, sorted_lex,
    string_views,
};
use crate::util::path::{path_clone, path_join, spec_path_join};
use crate::util::text::str_eq;
use std::path::PathBuf;

verus! {

// ---------------------------------------------------------------------------
// Serializable enums and their conversions
// ---------------------------------------------------------------------------

/// Serializable trigger mode
#[derive(Clone, Copy, Debug, PartialEq, Eq, Structural)]
pub enum PresetTriggerMode {
    Gate,
    Latch,
    OneShot,
}

impl Default for PresetTriggerMode {
    fn default() -> (m: Self)
        ensures
            m == PresetTriggerMode::Gate,
    {
        PresetTriggerMode::Gate
    }
}

pub open spec fn spec_preset_trigger_mode(mode: TriggerMode) -> PresetTriggerMode {
    match mode {
        TriggerMode::Gate => PresetTriggerMode::Gate,
        TriggerMode::Latch => PresetTriggerMode::Latch,
        TriggerMode::OneShot => PresetTriggerMode::OneShot,
    }
}

pub open spec fn spec_pad_trigger_mode(mode: PresetTriggerMode) -> TriggerMode {
    match mode {
        PresetTriggerMode::Gate => TriggerMode::Gate,
        PresetTriggerMode::Latch => TriggerMode::Latch,
        PresetTriggerMode::OneShot => TriggerMode::OneShot,
    }
}

impl From<TriggerMode> for PresetTriggerMode {
    fn from(mode: TriggerMode) -> (r: Self) {
        match mode {
            TriggerMode::Gate => PresetTriggerMode::Gate,
            TriggerMode::Latch => PresetTriggerMode::Latch,
            TriggerMode::OneShot => PresetTriggerMode::OneShot,
        }
    }
}

impl vstd::std_specs::convert::FromSpecImpl<TriggerMode> for PresetTriggerMode {
    open spec fn obeys_from_spec() -> bool {
        true
    }

    open spec fn from_spec(mode: TriggerMode) -> Self {
        spec_preset_trigger_mode(mode)
    }
}

impl From<PresetTriggerMode> for TriggerMode {
    fn from(mode: PresetTriggerMode) -> (r: Self) {
        match mode {
            PresetTriggerMode::Gate => TriggerMode::Gate,
            PresetTriggerMode::Latch => TriggerMode::Latch,
            PresetTriggerMode::OneShot => TriggerMode::OneShot,
        }
    }
}

impl vstd::std_specs::convert::FromSpecImpl<PresetTriggerMode> for TriggerMode {
    open spec fn obeys_from_spec() -> bool {
        true
    }

    open spec fn from_spec(mode: PresetTriggerMode) -> Self {
        spec_pad_trigger_mode(mode)
    }
}

/// Serializable blend mode (legacy - kept for backward compatibility)
#[derive(Clone, Copy, Debug, PartialEq, Eq, Structural)]
pub enum PresetBlendMode {
    Replace,
    Add,
    Multiply,
    Screen,
    Alpha,
}

impl Default for PresetBlendMode {
    fn default() -> (m: Self)
        ensures
            m == PresetBlendMode::Replace,
    {
        PresetBlendMode::Replace
    }
}

pub open spec fn spec_preset_blend_mode(mode: BlendMode) -> PresetBlendMode {
    match mode {
        BlendMode::Replace => PresetBlendMode::Replace,
        BlendMode::Add => PresetBlendMode::Add,
        BlendMode::Multiply => PresetBlendMode::Multiply,
        BlendMode::Screen => PresetBlendMode::Screen,
        BlendMode::Alpha => PresetBlendMode::Alpha,
    }
}

pub open spec fn spec_pad_blend_mode(mode: PresetBlendMode) -> BlendMode {
    match mode {
        PresetBlendMode::Replace => BlendMode::Replace,
        PresetBlendMode::Add => BlendMode::Add,
        PresetBlendMode::Multiply => BlendMode::Multiply,
        PresetBlendMode::Screen => BlendMode::Screen,
        PresetBlendMode::Alpha => BlendMode::Alpha,
    }
}

impl From<BlendMode> for PresetBlendMode {
    fn from(mode: BlendMode) -> (r: Self) {
        match mode {
            BlendMode::Replace => PresetBlendMode::Replace,
            BlendMode::Add => PresetBlendMode::Add,
            BlendMode::Multiply => PresetBlendMode::Multiply,
            BlendMode::Screen => PresetBlendMode::Screen,
            BlendMode::Alpha => PresetBlendMode::Alpha,
        }
    }
}

impl vstd::std_specs::convert::FromSpecImpl<BlendMode> for PresetBlendMode {
    open spec fn obeys_from_spec() -> bool {
        true
    }

    open spec fn from_spec(mode: BlendMode) -> Self {
        spec_preset_blend_mode(mode)
    }
}

impl From<PresetBlendMode> for BlendMode {
    fn from(mode: PresetBlendMode) -> (r: Self) {
        match mode {
            PresetBlendMode::Replace => BlendMode::Replace,
            PresetBlendMode::Add => BlendMode::Add,
            PresetBlendMode::Multiply => BlendMode::Multiply,
            PresetBlendMode::Screen => BlendMode::Screen,
            PresetBlendMode::Alpha => BlendMode::Alpha,
        }
    }
}

impl vstd::std_specs::convert::FromSpecImpl<PresetBlendMode> for BlendMode {
    open spec fn obeys_from_spec() -> bool {
        true
    }

    open spec fn from_spec(mode: PresetBlendMode) -> Self {
        spec_pad_blend_mode(mode)
    }
}

/// Serializable mix mode with keying support
#[derive(Clone, Copy, Debug, PartialEq, Eq, Structural)]
pub enum PresetMixMode {
    Normal,
    Add,
    Multiply,
    Screen,
    Overlay,
    SoftLight,
    HardLight,
    Difference,
    Lighten,
    Darken,
    ChromaKey,
    LumaKey,
}

impl Default for PresetMixMode {
    fn default() -> (m: Self)
        ensures
            m == PresetMixMode::Normal,
    {
        PresetMixMode::Normal
    }
}

pub open spec fn spec_preset_mix_mode(mode: PadMixMode) -> PresetMixMode {
    match mode {
        PadMixMode::Normal => PresetMixMode::Normal,
        PadMixMode::Add => PresetMixMode::Add,
        PadMixMode::Multiply => PresetMixMode::Multiply,
        PadMixMode::Screen => PresetMixMode::Screen,
        PadMixMode::Overlay => PresetMixMode::Overlay,
        PadMixMode::SoftLight => PresetMixMode::SoftLight,
        PadMixMode::HardLight => PresetMixMode::HardLight,
        PadMixMode::Difference => PresetMixMode::Difference,
        PadMixMode::Lighten => PresetMixMode::Lighten,
        PadMixMode::Darken => PresetMixMode::Darken,
        PadMixMode::ChromaKey => PresetMixMode::ChromaKey,
        PadMixMode::LumaKey => PresetMixMode::LumaKey,
    }
}

pub open spec fn spec_pad_mix_mode(mode: PresetMixMode) -> PadMixMode {
    match mode {
        PresetMixMode::Normal => PadMixMode::Normal,
        PresetMixMode::Add => PadMixMode::Add,
        PresetMixMode::Multiply => PadMixMode::Multiply,
        PresetMixMode::Screen => PadMixMode::Screen,
        PresetMixMode::Overlay => PadMixMode::Overlay,
        PresetMixMode::SoftLight => PadMixMode::SoftLight,
        PresetMixMode::HardLight => PadMixMode::HardLight,
        PresetMixMode::Difference => PadMixMode::Difference,
        PresetMixMode::Lighten => PadMixMode::Lighten,
        PresetMixMode::Darken => PadMixMode::Darken,
        PresetMixMode::ChromaKey => PadMixMode::ChromaKey,
        PresetMixMode::LumaKey => PadMixMode::LumaKey,
    }
}

impl From<PadMixMode> for PresetMixMode {
    fn from(mode: PadMixMode) -> (r: Self) {
        match mode {
            PadMixMode::Normal => PresetMixMode::Normal,
            PadMixMode::Add => PresetMixMode::Add,
            PadMixMode::Multiply => PresetMixMode::Multiply,
            PadMixMode::Screen => PresetMixMode::Screen,
            PadMixMode::Overlay => PresetMixMode::Overlay,
            PadMixMode::SoftLight => PresetMixMode::SoftLight,
            PadMixMode::HardLight => PresetMixMode::HardLight,
            PadMixMode::Difference => PresetMixMode::Difference,
            PadMixMode::Lighten => PresetMixMode::Lighten,
            PadMixMode::Darken => PresetMixMode::Darken,
            PadMixMode::ChromaKey => PresetMixMode::ChromaKey,
            PadMixMode::LumaKey => PresetMixMode::LumaKey,
        }
    }
}

impl vstd::std_specs::convert::FromSpecImpl<PadMixMode> for PresetMixMode {
    open spec fn obeys_from_spec() -> bool {
        true
    }

    open spec fn from_spec(mode: PadMixMode) -> Self {
        spec_preset_mix_mode(mode)
    }
}

impl From<PresetMixMode> for PadMixMode {
    fn from(mode: PresetMixMode) -> (r: Self) {
        match mode {
            PresetMixMode::Normal => PadMixMode::Normal,
            PresetMixMode::Add => PadMixMode::Add,
            PresetMixMode::Multiply => PadMixMode::Multiply,
            PresetMixMode::Screen => PadMixMode::Screen,
            PresetMixMode::Overlay => PadMixMode::Overlay,
            PresetMixMode::SoftLight => PadMixMode::SoftLight,
            PresetMixMode::HardLight => PadMixMode::HardLight,
            PresetMixMode::Difference => PadMixMode::Difference,
            PresetMixMode::Lighten => PadMixMode::Lighten,
            PresetMixMode::Darken => PadMixMode::Darken,
            PresetMixMode::ChromaKey => PadMixMode::ChromaKey,
            PresetMixMode::LumaKey => PadMixMode::LumaKey,
        }
    }
}

impl vstd::std_specs::convert::FromSpecImpl<PresetMixMode> for PadMixMode {
    open spec fn obeys_from_spec() -> bool {
        true
    }

    open spec fn from_spec(mode: PresetMixMode) -> Self {
        spec_pad_mix_mode(mode)
    }
}

/// Saving a pad's modes into a preset and loading them back gives the same
/// modes; loading a preset's modes into a pad and saving them gives the same
/// preset modes. The conversions are mutually inverse bijections.
pub proof fn lemma_mode_conversions_roundtrip(
    t: TriggerMode,
    pt: PresetTriggerMode,
    b: BlendMode,
    pb: PresetBlendMode,
    m: PadMixMode,
    pm: PresetMixMode,
)
    ensures
        spec_pad_trigger_mode(spec_preset_trigger_mode(t)) == t,
        spec_preset_trigger_mode(spec_pad_trigger_mode(pt)) == pt,
        spec_pad_blend_mode(spec_preset_blend_mode(b)) == b,
        spec_preset_blend_mode(spec_pad_blend_mode(pb)) == pb,
        spec_pad_mix_mode(spec_preset_mix_mode(m)) == m,
        spec_preset_mix_mode(spec_pad_mix_mode(pm)) == pm,
{
}

/// Each mode is saved to and loaded from a preset under its own name: a
/// pad's trigger, blend and mix mode convert to the preset mode of the same
/// name, and each preset mode converts back to the pad mode of that name.
pub proof fn lemma_modes_keep_their_names()
    ensures
        spec_preset_trigger_mode(TriggerMode::Gate) == PresetTriggerMode::Gate,
        spec_preset_trigger_mode(TriggerMode::Latch) == PresetTriggerMode::Latch,
        spec_preset_trigger_mode(TriggerMode::OneShot) == PresetTriggerMode::OneShot,
        spec_pad_trigger_mode(PresetTriggerMode::Gate) == TriggerMode::Gate,
        spec_pad_trigger_mode(PresetTriggerMode::Latch) == TriggerMode::Latch,
        spec_pad_trigger_mode(PresetTriggerMode::OneShot) == TriggerMode::OneShot,
        spec_preset_blend_mode(BlendMode::Replace) == PresetBlendMode::Replace,
        spec_preset_blend_mode(BlendMode::Add) == PresetBlendMode::Add,
        spec_preset_blend_mode(BlendMode::Multiply) == PresetBlendMode::Multiply,
        spec_preset_blend_mode(BlendMode::Screen) == PresetBlendMode::Screen,
        spec_preset_blend_mode(BlendMode::Alpha) == PresetBlendMode::Alpha,
        spec_pad_blend_mode(PresetBlendMode::Replace) == BlendMode::Replace,
        spec_pad_blend_mode(PresetBlendMode::Add) == BlendMode::Add,
        spec_pad_blend_mode(PresetBlendMode::Multiply) == BlendMode::Multiply,
        spec_pad_blend_mode(PresetBlendMode::Screen) == BlendMode::Screen,
        spec_pad_blend_mode(PresetBlendMode::Alpha) == BlendMode::Alpha,
        spec_preset_mix_mode(PadMixMode::Normal) == PresetMixMode::Normal,
        spec_preset_mix_mode(PadMixMode::Add) == PresetMixMode::Add,
        spec_preset_mix_mode(PadMixMode::Multiply) == PresetMixMode::Multiply,
        spec_preset_mix_mode(PadMixMode::Screen) == PresetMixMode::Screen,
        spec_preset_mix_mode(PadMixMode::Overlay) == PresetMixMode::Overlay,
        spec_preset_mix_mode(PadMixMode::SoftLight) == PresetMixMode::SoftLight,
        spec_preset_mix_mode(PadMixMode::HardLight) == PresetMixMode::HardLight,
        spec_preset_mix_mode(PadMixMode::Difference) == PresetMixMode::Difference,
        spec_preset_mix_mode(PadMixMode::Lighten) == PresetMixMode::Lighten,
        spec_preset_mix_mode(PadMixMode::Darken) == PresetMixMode::Darken,
        spec_preset_mix_mode(PadMixMode::ChromaKey) == PresetMixMode::ChromaKey,
        spec_preset_mix_mode(PadMixMode::LumaKey) == PresetMixMode::LumaKey,
        spec_pad_mix_mode(PresetMixMode::Normal) == PadMixMode::Normal,
        spec_pad_mix_mode(PresetMixMode::Add) == PadMixMode::Add,
        spec_pad_mix_mode(PresetMixMode::Multiply) == PadMixMode::Multiply,
        spec_pad_mix_mode(PresetMixMode::Screen) == PadMixMode::Screen,
        spec_pad_mix_mode(PresetMixMode::Overlay) == PadMixMode::Overlay,
        spec_pad_mix_mode(PresetMixMode::SoftLight) == PadMixMode::SoftLight,
        spec_pad_mix_mode(PresetMixMode::HardLight) == PadMixMode::HardLight,
        spec_pad_mix_mode(PresetMixMode::Difference) == PadMixMode::Difference,
        spec_pad_mix_mode(PresetMixMode::Lighten) == PadMixMode::Lighten,
        spec_pad_mix_mode(PresetMixMode::Darken) == PadMixMode::Darken,
        spec_pad_mix_mode(PresetMixMode::ChromaKey) == PadMixMode::ChromaKey,
        spec_pad_mix_mode(PresetMixMode::LumaKey) == PadMixMode::LumaKey,
{
}

/// The mix mode that a legacy preset's blend mode stands for: Replace and
/// Alpha blend as Normal, the other blend modes keep their name.
pub open spec fn spec_legacy_mix_mode(blend: PresetBlendMode) -> PadMixMode {
    match blend {
        PresetBlendMode::Replace => PadMixMode::Normal,
        PresetBlendMode::Add => PadMixMode::Add,
        PresetBlendMode::Multiply => PadMixMode::Multiply,
        PresetBlendMode::Screen => PadMixMode::Screen,
        PresetBlendMode::Alpha => PadMixMode::Normal,
    }
}

/// The mix mode a pad gets when a preset is applied to it: the preset's mix
/// mode when it has one, else the mix mode its legacy blend mode stands for,
/// else the pad keeps its current mix mode.
pub open spec fn spec_applied_mix_mode(
    current: PadMixMode,
    mix_mode: Option<PresetMixMode>,
    blend_mode: Option<PresetBlendMode>,
) -> PadMixMode {
    match mix_mode {
        Some(m) => spec_pad_mix_mode(m),
        None => match blend_mode {
            Some(b) => spec_legacy_mix_mode(b),
            None => current,
        },
    }
}

/// Mix mode for a pad from a preset, with the fallback for presets written
/// before mix modes existed (they only carry a blend mode).
pub fn applied_mix_mode(
    current: PadMixMode,
    mix_mode: Option<PresetMixMode>,
    blend_mode: Option<PresetBlendMode>,
) -> (m: PadMixMode)
    ensures
        m == spec_applied_mix_mode(current, mix_mode, blend_mode),
{
    if let Some(mix_mode) = mix_mode {
        PadMixMode::from(mix_mode)
    } else if let Some(blend_mode) = blend_mode {
        match blend_mode {
            PresetBlendMode::Replace => PadMixMode::Normal,
            PresetBlendMode::Add => PadMixMode::Add,
            PresetBlendMode::Multiply => PadMixMode::Multiply,
            PresetBlendMode::Screen => PadMixMode::Screen,
            PresetBlendMode::Alpha => PadMixMode::Normal,
        }
    } else {
        current
    }
}

/// Legacy blend mode a pad gets when a preset is applied: the preset's blend
/// mode, or the default (Replace) when the preset has none.
pub fn applied_blend_mode(blend_mode: Option<PresetBlendMode>) -> (b: BlendMode)
    ensures
        b == match blend_mode {
            Some(pb) => spec_pad_blend_mode(pb),
            None => BlendMode::Replace,
        },
{
    match blend_mode {
        Some(pb) => BlendMode::from(pb),
        None => BlendMode::default(),
    }
}

// ---------------------------------------------------------------------------
// Preset file names
// ---------------------------------------------------------------------------

/// Characters that cannot stand in a file name on common file systems.
pub open spec fn spec_is_forbidden_file_char(c: char) -> bool {
    c == '/' || c == '\\' || c == ':' || c == '*' || c == '?' || c == '"' || c == '<' || c == '>'
        || c == '|'
}

pub open spec fn spec_sanitize_char(c: char) -> char {
    if spec_is_forbidden_file_char(c) { '_' } else { c }
}

/// File name of a preset with the given display name: every forbidden
/// character replaced by '_', then ".json" appended.
pub open spec fn spec_preset_filename(display_name: Seq<char>) -> Seq<char> {
    display_name.map_values(|c: char| spec_sanitize_char(c)) + ".json"@
}

/// `s` without a trailing ".json", or `s` itself when it has none.
pub open spec fn spec_strip_json(s: Seq<char>) -> Seq<char> {
    if s.len() >= 5 && s.subrange(s.len() - 5, s.len() as int) == ".json"@ {
        s.subrange(0, s.len() - 5)
    } else {
        s
    }
}

/// `p` is the position of the first '_' in `s`.
pub open spec fn spec_is_first_underscore(s: Seq<char>, p: int) -> bool {
    &&& 0 <= p < s.len()
    &&& s[p] == '_'
    &&& forall|j: int| 0 <= j < p ==> s[j] != '_'
}

pub open spec fn spec_all_ascii_digits(s: Seq<char>) -> bool {
    forall|j: int| 0 <= j < s.len() ==> '0' <= #[trigger] s[j] <= '9'
}

/// `s` without a numeric ordering prefix: when the text before the first
/// '_' is made of ASCII digits only (possibly none), that text and the '_'
/// are dropped.
pub open spec fn spec_drop_numeric_prefix(s: Seq<char>) -> Seq<char> {
    if exists|p: int| spec_is_first_underscore(s, p) {
        let p = choose|p: int| spec_is_first_underscore(s, p);
        if spec_all_ascii_digits(s.subrange(0, p)) {
            s.subrange(p + 1, s.len() as int)
        } else {
            s
        }
    } else {
        s
    }
}

/// Display name of a preset file: the file name without ".json" and without
/// a numeric prefix such as "001_", or "Preset" when nothing is left.
pub open spec fn spec_clean_display_name(filename: Seq<char>) -> Seq<char> {
    spec_stem_display_name(spec_strip_json(filename))
}

/// Display name of a file name stem (the name without ".json"): the stem
/// without a numeric prefix, or "Preset" when nothing is left.
pub open spec fn spec_stem_display_name(stem: Seq<char>) -> Seq<char> {
    let name = spec_drop_numeric_prefix(stem);
    if name.len() == 0 {
        "Preset"@
    } else {
        name
    }
}

/// A display name with every forbidden character replaced by '_'.
pub open spec fn spec_sanitize_name(name: Seq<char>) -> Seq<char> {
    name.map_values(|c: char| spec_sanitize_char(c))
}

proof fn lemma_first_underscore_unique(s: Seq<char>, p: int, q: int)
    requires
        spec_is_first_underscore(s, p),
        spec_is_first_underscore(s, q),
    ensures
        p == q,
{
    if p < q {
        assert(s[p] != '_');
    } else if q < p {
        assert(s[q] != '_');
    }
}

fn is_forbidden_file_char(c: char) -> (b: bool)
    ensures
        b == spec_is_forbidden_file_char(c),
{
    c == '/' || c == '\\' || c == ':' || c == '*' || c == '?' || c == '"' || c == '<' || c == '>'
        || c == '|'
}

impl PresetManager {
    /// Generate a filename from a display name
    pub fn generate_preset_filename(display_name: &str) -> (filename: String)
        ensures
            filename@ == spec_preset_filename(display_name@),
    {
        proof {
            reveal_strlit("_");
            reveal_strlit(".json");
        }
        let n = display_name.unicode_len();
        let mut out = String::new();
        for i in 0..n
            invariant
                n == display_name@.len(),
                out@ == display_name@.take(i as int).map_values(|c: char| spec_sanitize_char(c)),
        {
            let c = display_name.get_char(i);
            let ghost prev = out@;
            if is_forbidden_file_char(c) {
                out.append("_");
                proof {
                    reveal_strlit("_");
                    assert("_"@ =~= seq!['_']);
                    assert(out@ =~= prev.push(spec_sanitize_char(c)));
                }
            } else {
                let piece = display_name.substring_char(i, i + 1);
                proof {
                    assert(piece@ =~= seq![c]);
                }
                out.append(piece);
                proof {
                    assert(out@ =~= prev.push(spec_sanitize_char(c)));
                }
            }
            proof {
                let mapped = display_name@.take(i + 1).map_values(|c: char| spec_sanitize_char(c));
                assert(out@ =~= prev.push(spec_sanitize_char(c)));
                assert forall|j: int| 0 <= j < i + 1 implies #[trigger] mapped[j] == out@[j] by {
                    if j < i {
                        assert(display_name@.take(i + 1)[j] == display_name@.take(i as int)[j]);
                    }
                }
                assert(out@ =~= mapped);
            }
        }
        proof {
            assert(display_name@.take(n as int) =~= display_name@);
        }
        out.append(".json");
        out
    }

    /// Clean a filename to get display name
    pub fn clean_display_name(filename: &str) -> (name: String)
        ensures
            name@ == spec_clean_display_name(filename@),
    {
        proof {
            reveal_strlit(".json");
            reveal_strlit("Preset");
        }
        let len = filename.unicode_len();
        // Remove .json extension
        let mut end = len;
        if len >= 5 {
            let tail = filename.substring_char(len - 5, len);
            if crate::util::text::str_eq(tail, ".json") {
                end = len - 5;
            }
        }
        let stem = filename.substring_char(0, end);
        let ghost stripped = spec_strip_json(filename@);
        assert(stem@ == stripped);
        // Remove numeric prefix (###_)
        let mut pos: usize = 0;
        let mut digits = true;
        while pos < end && stem.get_char(pos) != '_'
            invariant
                end == stem@.len(),
                pos <= end,
                forall|j: int| 0 <= j < pos ==> stem@[j] != '_',
                digits == spec_all_ascii_digits(stem@.subrange(0, pos as int)),
            decreases end - pos,
        {
            let c = stem.get_char(pos);
            proof {
                let prev = stem@.subrange(0, pos as int);
                let next = stem@.subrange(0, pos + 1);
                assert(next =~= prev.push(c));
                if spec_all_ascii_digits(next) {
                    assert forall|j: int| 0 <= j < prev.len() implies '0' <= #[trigger] prev[j] <= '9' by {
                        assert(next[j] == prev[j]);
                    }
                    assert(next[pos as int] == c);
                }
            }
            digits = digits && '0' <= c && c <= '9';
            pos = pos + 1;
        }
        let found = pos < end;
        let name: &str;
        if found {
            proof {
                assert(spec_is_first_underscore(stem@, pos as int));
                let q = choose|q: int| spec_is_first_underscore(stem@, q);
                lemma_first_underscore_unique(stem@, pos as int, q);
            }
            if digits {
                name = stem.substring_char(pos + 1, end);
            } else {
                name = stem;
            }
        } else {
            proof {
                assert(!exists|p: int| spec_is_first_underscore(stem@, p));
            }
            name = stem;
        }
        if name.unicode_len() == 0 {
            String::from_str("Preset")
        } else {
            String::from_str(name)
        }
    }
}


// ---------------------------------------------------------------------------
// Preset banks
// ---------------------------------------------------------------------------

/// A file of a bank directory is a preset when its name has the extension
/// "json": it ends in ".json" and has at least one character before it (a
/// name such as ".json" is a hidden file without extension).
pub open spec fn spec_is_preset_file(name: Seq<char>) -> bool {
    name.len() > 5 && name.subrange(name.len() - 5, name.len() as int) == ".json"@
}

pub open spec fn preset_file_pred() -> spec_fn(Seq<char>) -> bool {
    |name: Seq<char>| spec_is_preset_file(name)
}

/// The display name of each file, in the same order.
pub open spec fn spec_display_names(files: Seq<Seq<char>>) -> Seq<Seq<char>> {
    Seq::new(files.len(), |k: int| spec_clean_display_name(files[k]))
}

/// Index of a bank built from the names found in its directory: the preset
/// files among them in lexicographic order, and their display names.
pub open spec fn spec_indexed(files: Seq<Seq<char>>, names: Seq<Seq<char>>, entries: Seq<Seq<char>>) -> bool {
    &&& sorted_lex(files)
    &&& files.to_multiset() == entries.filter(preset_file_pred()).to_multiset()
    &&& names == spec_display_names(files)
}

/// Preset bank information
pub struct PresetBank {
    pub name: String,
    pub path: PathBuf,
    pub preset_files: Vec<String>,
    pub preset_display_names: Vec<String>,
}

pub struct PresetBankView {
    pub name: Seq<char>,
    pub path: PathBuf,
    pub preset_files: Seq<Seq<char>>,
    pub preset_display_names: Seq<Seq<char>>,
}

impl View for PresetBank {
    type V = PresetBankView;

    open spec fn view(&self) -> PresetBankView {
        PresetBankView {
            name: self.name@,
            path: self.path,
            preset_files: string_views(self.preset_files@),
            preset_display_names: string_views(self.preset_display_names@),
        }
    }
}

/// A bank whose display names are those of its files.
pub open spec fn spec_bank_wf(b: PresetBankView) -> bool {
    b.preset_display_names == spec_display_names(b.preset_files)
}

fn clone_strings(v: &Vec<String>) -> (c: Vec<String>)
    ensures
        string_views(c@) == string_views(v@),
{
    let mut c: Vec<String> = Vec::new();
    for i in 0..v.len()
        invariant
            string_views(c@) =~= string_views(v@.take(i as int)),
    {
        let x = v[i].clone();
        proof {
            lemma_string_views_take_succ(v@, i as int);
            lemma_string_views_push(c@, x);
        }
        c.push(x);
    }
    proof {
        assert(v@.take(v@.len() as int) =~= v@);
    }
    c
}

impl Clone for PresetBank {
    fn clone(&self) -> (c: Self)
        ensures
            c@ == self@,
    {
        PresetBank {
            name: self.name.clone(),
            path: path_clone(&self.path),
            preset_files: clone_strings(&self.preset_files),
            preset_display_names: clone_strings(&self.preset_display_names),
        }
    }
}

/// The contents of one bank directory, as the file system reported them:
/// the bank's name, its directory and the names of the entries in it.
pub struct BankListing {
    pub name: String,
    pub path: PathBuf,
    pub entries: Vec<String>,
}

fn is_preset_file(name: &str) -> (b: bool)
    ensures
        b == spec_is_preset_file(name@),
{
    proof {
        reveal_strlit(".json");
    }
    let len = name.unicode_len();
    if len > 5 {
        str_eq(name.substring_char(len - 5, len), ".json")
    } else {
        false
    }
}

/// Errors of the preset lookups that precede reading or writing a file.
#[derive(Debug, Clone, Copy, PartialEq, Eq, Structural)]
pub enum PresetError {
    /// The current bank is not among the known banks.
    BankNotFound,
    /// No preset of the current bank has the requested name.
    PresetNotFound,
    /// The requested preset index is past the bank's last preset.
    InvalidIndex,
}

/// Centralized preset management
pub struct PresetManager {
    banks: Vec<PresetBank>,
    current_bank: String,
    base_path: PathBuf,
}

pub struct PresetManagerView {
    /// The known banks; their order carries no meaning.
    pub banks: Seq<PresetBankView>,
    pub current_bank: Seq<char>,
    pub base_path: PathBuf,
}

impl PresetManagerView {
    /// No two banks share a name, every bank's display names are the
    /// cleaned names of its preset files, and a bank named "Default" is
    /// held. Every manager keeps this.
    pub open spec fn wf(self) -> bool {
        &&& spec_banks_wf(self.banks)
        &&& spec_has_bank(self.banks, "Default"@)
    }
}

pub open spec fn spec_bank_views(banks: Seq<PresetBank>) -> Seq<PresetBankView> {
    banks.map_values(|b: PresetBank| b@)
}

impl View for PresetManager {
    type V = PresetManagerView;

    closed spec fn view(&self) -> PresetManagerView {
        PresetManagerView {
            banks: spec_bank_views(self.banks@),
            current_bank: self.current_bank@,
            base_path: self.base_path,
        }
    }
}

/// No two banks share a name, and every bank's display names are those of
/// its files.
pub open spec fn spec_banks_wf(banks: Seq<PresetBankView>) -> bool {
    &&& forall|i: int, j: int|
        0 <= i < banks.len() && 0 <= j < banks.len() && i != j ==> #[trigger] banks[i].name
            != #[trigger] banks[j].name
    &&& forall|i: int| 0 <= i < banks.len() ==> spec_bank_wf(#[trigger] banks[i])
}

pub open spec fn spec_is_bank_at(banks: Seq<PresetBankView>, name: Seq<char>, i: int) -> bool {
    0 <= i < banks.len() && banks[i].name == name
}

pub open spec fn spec_has_bank(banks: Seq<PresetBankView>, name: Seq<char>) -> bool {
    exists|i: int| spec_is_bank_at(banks, name, i)
}

/// The bank with the given name (meaningful when there is one).
pub open spec fn spec_bank_named(banks: Seq<PresetBankView>, name: Seq<char>) -> PresetBankView {
    banks[choose|i: int| spec_is_bank_at(banks, name, i)]
}

/// The names of the banks, in the order the banks are held.
pub open spec fn spec_bank_names(banks: Seq<PresetBankView>) -> Seq<Seq<char>> {
    Seq::new(banks.len(), |i: int| banks[i].name)
}

/// `p` is the first position of `x` in `s`.
pub open spec fn spec_is_first_position(s: Seq<Seq<char>>, x: Seq<char>, p: int) -> bool {
    &&& 0 <= p < s.len()
    &&& s[p] == x
    &&& forall|j: int| 0 <= j < p ==> s[j] != x
}

/// First position of `x` in `s`, if `x` occurs in it.
pub open spec fn spec_position(s: Seq<Seq<char>>, x: Seq<char>) -> Option<int> {
    if exists|p: int| spec_is_first_position(s, x, p) {
        Some(choose|p: int| spec_is_first_position(s, x, p))
    } else {
        None
    }
}

/// Path of the preset file at position `p` of the bank.
pub open spec fn spec_file_path(b: PresetBankView, p: int) -> PathBuf {
    spec_path_join(b.path, b.preset_files[p])
}

/// The path `get_preset_path` gives for a display name in the current bank.
pub open spec fn spec_preset_path(m: PresetManagerView, name: Seq<char>) -> Option<PathBuf> {
    if spec_has_bank(m.banks, m.current_bank) {
        let b = spec_bank_named(m.banks, m.current_bank);
        match spec_position(b.preset_display_names, name) {
            Some(p) => Some(spec_file_path(b, p)),
            None => None,
        }
    } else {
        None
    }
}

proof fn lemma_first_position_unique(s: Seq<Seq<char>>, x: Seq<char>, p: int, q: int)
    requires
        spec_is_first_position(s, x, p),
        spec_is_first_position(s, x, q),
    ensures
        p == q,
{
    if p < q {
        assert(s[p] != x);
    } else if q < p {
        assert(s[q] != x);
    }
}

proof fn lemma_bank_at_unique(banks: Seq<PresetBankView>, name: Seq<char>, i: int)
    requires
        spec_banks_wf(banks),
        spec_is_bank_at(banks, name, i),
    ensures
        spec_has_bank(banks, name),
        spec_bank_named(banks, name) == banks[i],
{
    let j = choose|j: int| spec_is_bank_at(banks, name, j);
    if j != i {
        assert(banks[i].name != banks[j].name);
    }
}

/// Index of the bank with the given name among banks with distinct names.
fn find_bank_in(banks: &Vec<PresetBank>, name: &str) -> (found: Option<usize>)
    requires
        spec_banks_wf(spec_bank_views(banks@)),
    ensures
        match found {
            Some(i) => spec_is_bank_at(spec_bank_views(banks@), name@, i as int) && spec_bank_named(
                spec_bank_views(banks@),
                name@,
            ) == spec_bank_views(banks@)[i as int],
            None => !spec_has_bank(spec_bank_views(banks@), name@),
        },
{
    let ghost bv = spec_bank_views(banks@);
    let mut i: usize = 0;
    while i < banks.len()
        invariant
            bv == spec_bank_views(banks@),
            spec_banks_wf(bv),
            i <= banks@.len(),
            forall|j: int| 0 <= j < i ==> banks@[j].name@ != name@,
        decreases banks@.len() - i,
    {
        if str_eq(banks[i].name.as_str(), name) {
            proof {
                lemma_bank_at_unique(bv, name@, i as int);
            }
            return Some(i);
        }
        i = i + 1;
    }
    proof {
        assert forall|j: int| !spec_is_bank_at(bv, name@, j) by {
            if spec_is_bank_at(bv, name@, j) {
                assert(banks@[j]@ == bv[j]);
            }
        }
    }
    None
}

/// Store a bank under its name among banks with distinct names, replacing
/// a bank of the same name.
fn put_bank_in(banks: &mut Vec<PresetBank>, bank: PresetBank)
    requires
        spec_banks_wf(spec_bank_views(old(banks)@)),
        spec_bank_wf(bank@),
    ensures
        spec_bank_views(final(banks)@) == spec_insert_bank(spec_bank_views(old(banks)@), bank@),
        spec_banks_wf(spec_bank_views(final(banks)@)),
{
    let ghost old_banks = spec_bank_views(banks@);
    let ghost bv = bank@;
    match find_bank_in(banks, bank.name.as_str()) {
        Some(i) => {
            let ghost nb = old_banks.update(i as int, bv);
            proof {
                let j = choose|j: int| spec_is_bank_at(old_banks, bv.name, j);
                lemma_bank_at_unique(old_banks, bv.name, i as int);
                if j != i {
                    assert(old_banks[i as int].name != old_banks[j].name);
                }
                assert(spec_bank_views(banks@.update(i as int, bank)) =~= nb);
                assert forall|a: int, b: int|
                    0 <= a < nb.len() && 0 <= b < nb.len() && a != b implies #[trigger] nb[a].name
                    != #[trigger] nb[b].name by {
                    if a != i && b != i {
                        assert(old_banks[a].name != old_banks[b].name);
                    } else if a == i {
                        assert(old_banks[i as int].name != old_banks[b].name);
                    } else {
                        assert(old_banks[a].name != old_banks[i as int].name);
                    }
                }
            }
            banks.set(i, bank);
            proof {
                assert(spec_bank_views(banks@) =~= nb);
                assert forall|a: int| 0 <= a < nb.len() implies spec_bank_wf(#[trigger] nb[a]) by {
                    if a != i {
                        assert(spec_bank_wf(old_banks[a]));
                    }
                }
            }
        },
        None => {
            let ghost nb = old_banks.push(bv);
            proof {
                assert(spec_bank_views(banks@.push(bank)) =~= nb);
                assert forall|a: int, b: int|
                    0 <= a < nb.len() && 0 <= b < nb.len() && a != b implies #[trigger] nb[a].name
                    != #[trigger] nb[b].name by {
                    if a < old_banks.len() && b < old_banks.len() {
                        assert(old_banks[a].name != old_banks[b].name);
                    } else if a < old_banks.len() {
                        assert(!spec_is_bank_at(old_banks, bv.name, a));
                    } else {
                        assert(!spec_is_bank_at(old_banks, bv.name, b));
                    }
                }
            }
            banks.push(bank);
            proof {
                assert(spec_bank_views(banks@) =~= nb);
                assert forall|a: int| 0 <= a < nb.len() implies spec_bank_wf(#[trigger] nb[a]) by {
                    if a < old_banks.len() {
                        assert(spec_bank_wf(old_banks[a]));
                    }
                }
            }
        },
    }
}

/// Position of the first occurrence of `x` among the strings of `v`.
fn position_of(v: &Vec<String>, x: &str) -> (p: Option<usize>)
    ensures
        match p {
            Some(i) => spec_position(string_views(v@), x@) == Some(i as int),
            None => spec_position(string_views(v@), x@) is None,
        },
{
    let ghost s = string_views(v@);
    let mut i: usize = 0;
    while i < v.len()
        invariant
            s == string_views(v@),
            i <= v@.len(),
            forall|j: int| 0 <= j < i ==> s[j] != x@,
        decreases v@.len() - i,
    {
        if str_eq(v[i].as_str(), x) {
            proof {
                assert(spec_is_first_position(s, x@, i as int));
                let q = choose|q: int| spec_is_first_position(s, x@, q);
                lemma_first_position_unique(s, x@, i as int, q);
            }
            return Some(i);
        }
        i = i + 1;
    }
    proof {
        assert(!exists|p: int| spec_is_first_position(s, x@, p));
    }
    None
}

impl PresetManager {
    #[verifier::type_invariant]
    spec fn inv(&self) -> bool {
        &&& spec_banks_wf(spec_bank_views(self.banks@))
        &&& spec_has_bank(spec_bank_views(self.banks@), "Default"@)
    }

    /// Index presets in a bank from the names found in its directory.
    pub fn index_presets_in_bank(bank: &mut PresetBank, entries: &Vec<String>)
        ensures
            final(bank)@.name == old(bank)@.name,
            final(bank)@.path == old(bank)@.path,
            spec_indexed(
                final(bank)@.preset_files,
                final(bank)@.preset_display_names,
                string_views(entries@),
            ),
            spec_bank_wf(final(bank)@),
    {
        let ghost ev = string_views(entries@);
        let mut files: Vec<String> = Vec::new();
        for i in 0..entries.len()
            invariant
                ev == string_views(entries@),
                string_views(files@) == ev.take(i as int).filter(preset_file_pred()),
        {
            proof {
                assert(ev.take(i + 1) =~= ev.take(i as int).push(ev[i as int]));
                ev.take(i as int).lemma_filter_push(ev[i as int], preset_file_pred());
            }
            if is_preset_file(entries[i].as_str()) {
                files.push(entries[i].clone());
                proof {
                    assert(string_views(files@) =~= ev.take(i as int).filter(preset_file_pred()).push(
                        ev[i as int],
                    ));
                }
            }
        }
        proof {
            assert(ev.take(entries@.len() as int) =~= ev);
        }
        let sorted = sort_strings(&files);
        let mut names: Vec<String> = Vec::new();
        for i in 0..sorted.len()
            invariant
                string_views(names@) =~= spec_display_names(string_views(sorted@)).take(i as int),
        {
            let n = Self::clean_display_name(sorted[i].as_str());
            proof {
                lemma_string_views_push(names@, n);
                assert(string_views(sorted@)[i as int] == sorted@[i as int]@);
            }
            names.push(n);
        }
        proof {
            assert(string_views(names@) =~= spec_display_names(string_views(sorted@)));
        }
        bank.preset_files = sorted;
        bank.preset_display_names = names;
    }

    /// Get current bank name
    pub fn get_current_bank(&self) -> (name: &str)
        ensures
            name@ == self@.current_bank,
            self@.wf(),
    {
        proof {
            use_type_invariant(self);
        }
        &self.current_bank
    }

    fn find_bank(&self, name: &str) -> (found: Option<usize>)
        ensures
            match found {
                Some(i) => spec_is_bank_at(self@.banks, name@, i as int) && spec_bank_named(
                    self@.banks,
                    name@,
                ) == self@.banks[i as int],
                None => !spec_has_bank(self@.banks, name@),
            },
    {
        proof {
            use_type_invariant(self);
        }
        find_bank_in(&self.banks, name)
    }

    /// Get list of bank names
    pub fn get_bank_names(&self) -> (names: Vec<String>)
        ensures
            sorted_lex(string_views(names@)),
            string_views(names@).to_multiset() == spec_bank_names(self@.banks).to_multiset(),
            string_views(names@).contains("Default"@),
            self@.wf(),
    {
        proof {
            use_type_invariant(self);
        }
        let mut unsorted: Vec<String> = Vec::new();
        for i in 0..self.banks.len()
            invariant
                string_views(unsorted@) =~= spec_bank_names(self@.banks).take(i as int),
        {
            let n = self.banks[i].name.clone();
            proof {
                lemma_string_views_push(unsorted@, n);
                assert(self@.banks[i as int] == self.banks@[i as int]@);
            }
            unsorted.push(n);
        }
        proof {
            assert(spec_bank_names(self@.banks).take(self.banks@.len() as int) =~= spec_bank_names(
                self@.banks,
            ));
        }
        let names = sort_strings(&unsorted);
        proof {
            broadcast use vstd::seq_lib::group_to_multiset_ensures;

            let i = choose|i: int| spec_is_bank_at(self@.banks, "Default"@, i);
            assert(spec_bank_names(self@.banks)[i] == "Default"@);
            assert(spec_bank_names(self@.banks).contains("Default"@));
            assert(spec_bank_names(self@.banks).to_multiset().count("Default"@) > 0);
            assert(string_views(names@).to_multiset().count("Default"@) > 0);
        }
        names
    }

    /// Switch to a different bank. The caller re-indexes the bank's
    /// directory afterwards with `reindex_current_bank`.
    pub fn switch_bank(&mut self, bank_name: &str) -> (switched: bool)
        ensures
            switched == spec_has_bank(old(self)@.banks, bank_name@),
            final(self)@.banks == old(self)@.banks,
            final(self)@.base_path == old(self)@.base_path,
            final(self)@.current_bank == if switched {
                bank_name@
            } else {
                old(self)@.current_bank
            },
            final(self)@.wf(),
    {
        proof {
            use_type_invariant(&*self);
        }
        match self.find_bank(bank_name) {
            Some(_) => {
                self.current_bank = String::from_str(bank_name);
                proof {
                    use_type_invariant(&*self);
                }
                true
            },
            None => false,
        }
    }

    /// Get preset names in current bank
    pub fn get_preset_names(&self) -> (names: Vec<String>)
        ensures
            string_views(names@) == if spec_has_bank(self@.banks, self@.current_bank) {
                spec_bank_named(self@.banks, self@.current_bank).preset_display_names
            } else {
                Seq::empty()
            },
            spec_has_bank(self@.banks, self@.current_bank) ==> string_views(names@)
                == spec_display_names(spec_bank_named(self@.banks, self@.current_bank).preset_files),
            self@.wf(),
    {
        proof {
            use_type_invariant(self);
            if spec_has_bank(self@.banks, self@.current_bank) {
                let i = choose|i: int| spec_is_bank_at(self@.banks, self@.current_bank, i);
                assert(spec_bank_wf(self@.banks[i]));
            }
        }
        match self.find_bank(self.current_bank.as_str()) {
            Some(i) => clone_strings(&self.banks[i].preset_display_names),
            None => {
                proof {
                    assert(string_views(Seq::<String>::empty()) =~= Seq::empty());
                }
                Vec::new()
            },
        }
    }

    /// Get the path for a preset
    pub fn get_preset_path(&self, name: &str) -> (path: Option<PathBuf>)
        ensures
            path == spec_preset_path(self@, name@),
    {
        proof {
            use_type_invariant(self);
        }
        let i = match self.find_bank(self.current_bank.as_str()) {
            Some(i) => i,
            None => return None,
        };
        let bank = &self.banks[i];
        proof {
            assert(bank@ == self@.banks[i as int]);
            assert(spec_bank_wf(bank@));
        }
        match position_of(&bank.preset_display_names, name) {
            Some(p) => {
                proof {
                    assert(bank@.preset_display_names.len() == bank@.preset_files.len());
                }
                Some(path_join(&bank.path, bank.preset_files[p].as_str()))
            },
            None => None,
        }
    }
}

pub struct BankListingView {
    pub name: Seq<char>,
    pub path: PathBuf,
    pub entries: Seq<Seq<char>>,
}

impl View for BankListing {
    type V = BankListingView;

    open spec fn view(&self) -> BankListingView {
        BankListingView { name: self.name@, path: self.path, entries: string_views(self.entries@) }
    }
}

pub open spec fn spec_listing_views(listing: Seq<BankListing>) -> Seq<BankListingView> {
    listing.map_values(|l: BankListing| l@)
}

/// The banks after a bank is stored under its name: a bank of the same name
/// is replaced, otherwise the bank is added.
pub open spec fn spec_insert_bank(banks: Seq<PresetBankView>, b: PresetBankView) -> Seq<
    PresetBankView,
> {
    if spec_has_bank(banks, b.name) {
        banks.update(choose|i: int| spec_is_bank_at(banks, b.name, i), b)
    } else {
        banks.push(b)
    }
}

/// `k` is the last directory of the listing with the given name.
pub open spec fn spec_is_last_listing(listing: Seq<BankListingView>, name: Seq<char>, k: int) -> bool {
    &&& 0 <= k < listing.len()
    &&& listing[k].name == name
    &&& forall|j: int| k < j < listing.len() ==> #[trigger] listing[j].name != name
}

pub open spec fn spec_listing_has(listing: Seq<BankListingView>, name: Seq<char>) -> bool {
    exists|k: int| 0 <= k < listing.len() && #[trigger] listing[k].name == name
}

/// A bank made from a directory of the listing.
pub open spec fn spec_bank_from_listing(b: PresetBankView, l: BankListingView) -> bool {
    &&& b.name == l.name
    &&& b.path == l.path
    &&& spec_indexed(b.preset_files, b.preset_display_names, l.entries)
}

/// The banks hold one bank per directory name of the listing, built from the
/// last directory of that name, and nothing else.
pub open spec fn spec_banks_from_listing(
    banks: Seq<PresetBankView>,
    listing: Seq<BankListingView>,
) -> bool {
    &&& forall|k: int| 0 <= k < listing.len() ==> spec_has_bank(banks, #[trigger] listing[k].name)
    &&& forall|i: int| 0 <= i < banks.len() ==> spec_bank_has_source(#[trigger] banks[i], listing)
}

/// The bank was built from the last directory of its name in the listing.
pub open spec fn spec_bank_has_source(b: PresetBankView, listing: Seq<BankListingView>) -> bool {
    exists|k: int| spec_is_last_listing(listing, b.name, k) && spec_bank_from_listing(b, listing[k])
}

/// The bank that stands in for a missing "Default" directory.
pub open spec fn spec_default_bank(base_path: PathBuf) -> PresetBankView {
    PresetBankView {
        name: "Default"@,
        path: spec_path_join(base_path, "Default"@),
        preset_files: Seq::empty(),
        preset_display_names: Seq::empty(),
    }
}

/// The banks a scan of the preset directory yields: one per bank directory
/// (the last listed of each name), plus an empty "Default" bank in
/// `base_path/Default` when no directory is named "Default".
pub open spec fn spec_scanned(
    banks: Seq<PresetBankView>,
    base_path: PathBuf,
    listing: Seq<BankListingView>,
) -> bool {
    if spec_listing_has(listing, "Default"@) {
        spec_banks_from_listing(banks, listing)
    } else {
        exists|prefix: Seq<PresetBankView>|
            spec_banks_from_listing(prefix, listing) && banks == prefix.push(
                spec_default_bank(base_path),
            )
    }
}

impl PresetManager {
    /// A bank named "Default" with no presets, in the base directory; it
    /// holds the place of the banks while they are rebuilt.
    fn placeholder_bank(&self) -> (b: PresetBank)
        ensures
            b@.name == "Default"@,
            spec_bank_wf(b@),
    {
        let b = PresetBank {
            name: String::from_str("Default"),
            path: path_clone(&self.base_path),
            preset_files: Vec::new(),
            preset_display_names: Vec::new(),
        };
        proof {
            assert(string_views(b.preset_files@) =~= Seq::empty());
            assert(string_views(b.preset_display_names@) =~= Seq::empty());
            assert(spec_display_names(Seq::empty()) =~= Seq::empty());
        }
        b
    }

    /// Replace the banks by banks that satisfy the manager's invariant.
    fn set_banks(&mut self, banks: Vec<PresetBank>)
        requires
            spec_banks_wf(spec_bank_views(banks@)),
            spec_has_bank(spec_bank_views(banks@), "Default"@),
        ensures
            final(self)@.banks == spec_bank_views(banks@),
            final(self)@.current_bank == old(self)@.current_bank,
            final(self)@.base_path == old(self)@.base_path,
    {
        self.banks = banks;
    }

    /// Store a bank under its name, replacing a bank of the same name.
    fn put_bank(&mut self, bank: PresetBank)
        requires
            spec_bank_wf(bank@),
        ensures
            final(self)@.banks == spec_insert_bank(old(self)@.banks, bank@),
            final(self)@.current_bank == old(self)@.current_bank,
            final(self)@.base_path == old(self)@.base_path,
            final(self)@.wf(),
    {
        proof {
            use_type_invariant(&*self);
        }
        let ghost old_banks = self@.banks;
        let mut banks: Vec<PresetBank> = Vec::new();
        banks.push(self.placeholder_bank());
        proof {
            let pv = spec_bank_views(banks@);
            assert(spec_is_bank_at(pv, "Default"@, 0));
        }
        std::mem::swap(&mut banks, &mut self.banks);
        put_bank_in(&mut banks, bank);
        proof {
            lemma_insert_keeps_names(old_banks, bank@, "Default"@);
        }
        self.set_banks(banks);
        proof {
            use_type_invariant(&*self);
        }
    }

    /// Add an empty bank under `name` in directory `path` (the caller has
    /// created the directory), replacing a bank of the same name.
    pub fn insert_bank(&mut self, name: &str, path: PathBuf)
        ensures
            final(self)@.banks == spec_insert_bank(
                old(self)@.banks,
                PresetBankView {
                    name: name@,
                    path: path,
                    preset_files: Seq::empty(),
                    preset_display_names: Seq::empty(),
                },
            ),
            final(self)@.current_bank == old(self)@.current_bank,
            final(self)@.base_path == old(self)@.base_path,
            final(self)@.wf(),
    {
        let bank = PresetBank {
            name: String::from_str(name),
            path,
            preset_files: Vec::new(),
            preset_display_names: Vec::new(),
        };
        proof {
            assert(string_views(bank.preset_files@) =~= Seq::empty());
            assert(string_views(bank.preset_display_names@) =~= Seq::empty());
            assert(spec_display_names(Seq::empty()) =~= Seq::empty());
        }
        self.put_bank(bank);
    }
}

proof fn lemma_scan_step(
    banks: Seq<PresetBankView>,
    listing: Seq<BankListingView>,
    l: BankListingView,
    b: PresetBankView,
)
    requires
        spec_banks_wf(banks),
        spec_banks_from_listing(banks, listing),
        spec_bank_from_listing(b, l),
    ensures
        spec_banks_from_listing(spec_insert_bank(banks, b), listing.push(l)),
{
    let nl = listing.push(l);
    let nb = spec_insert_bank(banks, b);
    let last = listing.len() as int;
    assert(nl[last] == l);
    assert(spec_is_last_listing(nl, b.name, last));
    // the position of `b` in the new banks
    let pos = if spec_has_bank(banks, b.name) {
        choose|i: int| spec_is_bank_at(banks, b.name, i)
    } else {
        banks.len() as int
    };
    assert(nb[pos] == b);
    assert forall|k: int| 0 <= k < nl.len() implies spec_has_bank(nb, #[trigger] nl[k].name) by {
        if k == last {
            assert(spec_is_bank_at(nb, nl[k].name, pos));
        } else {
            assert(nl[k] == listing[k]);
            assert(spec_has_bank(banks, listing[k].name));
            let i = choose|i: int| spec_is_bank_at(banks, listing[k].name, i);
            if i == pos {
                assert(spec_is_bank_at(nb, nl[k].name, pos));
            } else {
                assert(nb[i] == banks[i]);
                assert(spec_is_bank_at(nb, nl[k].name, i));
            }
        }
    }
    assert forall|i: int| 0 <= i < nb.len() implies spec_bank_has_source(#[trigger] nb[i], nl) by {
        if i == pos {
            assert(spec_is_last_listing(nl, nb[i].name, last) && spec_bank_from_listing(nb[i], nl[last]));
        } else {
            assert(nb[i] == banks[i]);
            assert(spec_bank_has_source(banks[i], listing));
            let k = choose|k: int|
                spec_is_last_listing(listing, banks[i].name, k) && spec_bank_from_listing(
                    banks[i],
                    listing[k],
                );
            assert(banks[i].name != b.name) by {
                if banks[i].name == b.name {
                    assert(spec_is_bank_at(banks, b.name, i));
                    if spec_has_bank(banks, b.name) {
                        let j = choose|j: int| spec_is_bank_at(banks, b.name, j);
                        if j != i {
                            assert(banks[i].name != banks[j].name);
                        }
                    }
                }
            }
            assert(nl[k] == listing[k]);
            assert forall|j: int| k < j < nl.len() implies #[trigger] nl[j].name != nb[i].name by {
                if j < last {
                    assert(nl[j] == listing[j]);
                }
            }
            assert(spec_is_last_listing(nl, nb[i].name, k) && spec_bank_from_listing(nb[i], nl[k]));
        }
    }
    assert(forall|k: int| 0 <= k < nl.len() ==> spec_has_bank(nb, #[trigger] nl[k].name));
}

impl PresetManager {
    /// Rebuild the banks from a scan of the preset directory: one bank per
    /// bank directory listed, plus an empty "Default" bank when no directory
    /// is named so. The caller creates `base_path/Default` in that case.
    pub fn scan_banks(&mut self, listing: &Vec<BankListing>)
        ensures
            spec_scanned(final(self)@.banks, old(self)@.base_path, spec_listing_views(listing@)),
            final(self)@.current_bank == old(self)@.current_bank,
            final(self)@.base_path == old(self)@.base_path,
            final(self)@.wf(),
    {
        let ghost lv = spec_listing_views(listing@);
        let mut banks: Vec<PresetBank> = Vec::new();
        proof {
            assert(spec_bank_views(banks@) =~= Seq::empty());
            assert(lv.take(0) =~= Seq::empty());
        }
        for k in 0..listing.len()
            invariant
                lv == spec_listing_views(listing@),
                spec_banks_wf(spec_bank_views(banks@)),
                spec_banks_from_listing(spec_bank_views(banks@), lv.take(k as int)),
        {
            let l = &listing[k];
            let mut bank = PresetBank {
                name: l.name.clone(),
                path: path_clone(&l.path),
                preset_files: Vec::new(),
                preset_display_names: Vec::new(),
            };
            Self::index_presets_in_bank(&mut bank, &l.entries);
            proof {
                assert(lv[k as int] == l@);
                assert(lv.take(k + 1) =~= lv.take(k as int).push(l@));
                lemma_scan_step(spec_bank_views(banks@), lv.take(k as int), l@, bank@);
            }
            put_bank_in(&mut banks, bank);
        }
        proof {
            assert(lv.take(listing@.len() as int) =~= lv);
            reveal_strlit("Default");
        }
        let ghost before = spec_bank_views(banks@);
        match find_bank_in(&banks, "Default") {
            Some(_) => {
                proof {
                    if !spec_listing_has(lv, "Default"@) {
                        let i = choose|i: int| spec_is_bank_at(before, "Default"@, i);
                        assert(spec_bank_has_source(before[i], lv));
                        let k = choose|k: int|
                            spec_is_last_listing(lv, before[i].name, k)
                                && spec_bank_from_listing(before[i], lv[k]);
                        assert(lv[k].name == "Default"@);
                    }
                }
            },
            None => {
                proof {
                    if spec_listing_has(lv, "Default"@) {
                        let k = choose|k: int| 0 <= k < lv.len() && #[trigger] lv[k].name == "Default"@;
                        assert(spec_has_bank(before, lv[k].name));
                    }
                }
                let default = PresetBank {
                    name: String::from_str("Default"),
                    path: path_join(&self.base_path, "Default"),
                    preset_files: Vec::new(),
                    preset_display_names: Vec::new(),
                };
                proof {
                    assert(string_views(default.preset_files@) =~= Seq::empty());
                    assert(string_views(default.preset_display_names@) =~= Seq::empty());
                    assert(spec_display_names(Seq::empty()) =~= Seq::empty());
                    assert(default@ == spec_default_bank(self@.base_path));
                }
                put_bank_in(&mut banks, default);
                proof {
                    assert(spec_banks_from_listing(before, lv));
                }
            },
        }
        proof {
            lemma_scanned_has_default(spec_bank_views(banks@), self@.base_path, lv);
        }
        self.set_banks(banks);
        proof {
            use_type_invariant(&*self);
        }
    }

    /// Create a manager for the presets under `base_path`, whose bank
    /// directories the caller has listed; the current bank is "Default".
    pub fn with_path(base_path: PathBuf, listing: &Vec<BankListing>) -> (m: Self)
        ensures
            m@.base_path == base_path,
            m@.current_bank == "Default"@,
            spec_scanned(m@.banks, base_path, spec_listing_views(listing@)),
            m@.wf(),
    {
        let placeholder = PresetBank {
            name: String::from_str("Default"),
            path: path_clone(&base_path),
            preset_files: Vec::new(),
            preset_display_names: Vec::new(),
        };
        let mut banks: Vec<PresetBank> = Vec::new();
        banks.push(placeholder);
        proof {
            reveal_strlit("Default");
            assert(string_views(placeholder.preset_files@) =~= Seq::empty());
            assert(string_views(placeholder.preset_display_names@) =~= Seq::empty());
            assert(spec_display_names(Seq::empty()) =~= Seq::empty());
            assert(spec_is_bank_at(spec_bank_views(banks@), "Default"@, 0));
        }
        let mut m = PresetManager { banks, current_bank: String::from_str("Default"), base_path };
        m.scan_banks(listing);
        m
    }
}

/// Where `save_preset` writes a preset of the given display name.
pub open spec fn spec_save_path(m: PresetManagerView, name: Seq<char>) -> Result<PathBuf, PresetError> {
    if spec_has_bank(m.banks, m.current_bank) {
        Ok(spec_path_join(spec_bank_named(m.banks, m.current_bank).path, spec_preset_filename(name)))
    } else {
        Err(PresetError::BankNotFound)
    }
}

/// Which file `load_preset` reads for a name: the preset displayed under
/// that name, or else the one displayed under the name's cleaned form.
pub open spec fn spec_load_path(m: PresetManagerView, name: Seq<char>) -> Result<PathBuf, PresetError> {
    if spec_has_bank(m.banks, m.current_bank) {
        let b = spec_bank_named(m.banks, m.current_bank);
        match spec_position(b.preset_display_names, name) {
            Some(p) => Ok(spec_file_path(b, p)),
            None => match spec_position(b.preset_display_names, spec_clean_display_name(name)) {
                Some(p) => Ok(spec_file_path(b, p)),
                None => Err(PresetError::PresetNotFound),
            },
        }
    } else {
        Err(PresetError::BankNotFound)
    }
}

/// Which file `load_preset_by_index` reads and `delete_preset` removes.
pub open spec fn spec_path_at(m: PresetManagerView, index: int) -> Result<PathBuf, PresetError> {
    if spec_has_bank(m.banks, m.current_bank) {
        let b = spec_bank_named(m.banks, m.current_bank);
        if index < b.preset_files.len() {
            Ok(spec_file_path(b, index))
        } else {
            Err(PresetError::InvalidIndex)
        }
    } else {
        Err(PresetError::BankNotFound)
    }
}

impl PresetManager {
    /// Directory of the current bank.
    pub fn current_bank_path(&self) -> (path: Option<PathBuf>)
        ensures
            path == if spec_has_bank(self@.banks, self@.current_bank) {
                Some(spec_bank_named(self@.banks, self@.current_bank).path)
            } else {
                None
            },
    {
        match self.find_bank(self.current_bank.as_str()) {
            Some(i) => Some(path_clone(&self.banks[i].path)),
            None => None,
        }
    }

    /// Re-index the current bank from the names found in its directory;
    /// the other banks stay as they are.
    pub fn reindex_current_bank(&mut self, entries: &Vec<String>)
        ensures
            final(self)@.current_bank == old(self)@.current_bank,
            final(self)@.base_path == old(self)@.base_path,
            final(self)@.banks.len() == old(self)@.banks.len(),
            spec_has_bank(final(self)@.banks, final(self)@.current_bank) == spec_has_bank(
                old(self)@.banks,
                old(self)@.current_bank,
            ),
            forall|i: int|
                0 <= i < old(self)@.banks.len() && old(self)@.banks[i].name != old(self)@.current_bank
                    ==> #[trigger] final(self)@.banks[i] == old(self)@.banks[i],
            spec_has_bank(old(self)@.banks, old(self)@.current_bank) ==> {
                let before = spec_bank_named(old(self)@.banks, old(self)@.current_bank);
                let after = spec_bank_named(final(self)@.banks, final(self)@.current_bank);
                &&& after.name == before.name
                &&& after.path == before.path
                &&& spec_indexed(
                    after.preset_files,
                    after.preset_display_names,
                    string_views(entries@),
                )
            },
            forall|n: Seq<char>| #[trigger] spec_has_bank(old(self)@.banks, n) ==> spec_has_bank(
                final(self)@.banks,
                n,
            ),
            final(self)@.wf(),
    {
        proof {
            use_type_invariant(&*self);
        }
        match self.find_bank(self.current_bank.as_str()) {
            Some(i) => {
                let mut bank = self.banks[i].clone();
                Self::index_presets_in_bank(&mut bank, entries);
                let ghost old_banks = self@.banks;
                let ghost cur = self@.current_bank;
                proof {
                    lemma_bank_at_unique(old_banks, cur, i as int);
                }
                self.put_bank(bank);
                proof {
                    let nb = self@.banks;
                    assert(nb == old_banks.update(i as int, bank@));
                    use_type_invariant(&*self);
                    assert(spec_is_bank_at(nb, cur, i as int));
                    lemma_bank_at_unique(nb, cur, i as int);
                }
            },
            None => {},
        }
        proof {
            use_type_invariant(&*self);
            assert forall|n: Seq<char>| #[trigger] spec_has_bank(old(self)@.banks, n) implies spec_has_bank(
                self@.banks,
                n,
            ) by {
                if n != old(self)@.current_bank {
                    let i = choose|i: int| spec_is_bank_at(old(self)@.banks, n, i);
                    assert(spec_is_bank_at(self@.banks, n, i));
                }
            }
        }
    }

    /// Path to save a preset under the given display name; the caller
    /// writes the file and re-indexes the bank.
    pub fn preset_save_path(&self, name: &str) -> (path: Result<PathBuf, PresetError>)
        ensures
            path == spec_save_path(self@, name@),
    {
        match self.find_bank(self.current_bank.as_str()) {
            Some(i) => {
                let filename = Self::generate_preset_filename(name);
                Ok(path_join(&self.banks[i].path, filename.as_str()))
            },
            None => Err(PresetError::BankNotFound),
        }
    }

    /// Path of the preset to load under the given name.
    pub fn preset_load_path(&self, name: &str) -> (path: Result<PathBuf, PresetError>)
        ensures
            path == spec_load_path(self@, name@),
    {
        proof {
            use_type_invariant(self);
        }
        let i = match self.find_bank(self.current_bank.as_str()) {
            Some(i) => i,
            None => return Err(PresetError::BankNotFound),
        };
        let bank = &self.banks[i];
        proof {
            assert(bank@ == self@.banks[i as int]);
            assert(spec_bank_wf(bank@));
            assert(bank@.preset_display_names.len() == bank@.preset_files.len());
        }
        match position_of(&bank.preset_display_names, name) {
            Some(p) => Ok(path_join(&bank.path, bank.preset_files[p].as_str())),
            None => {
                let cleaned = Self::clean_display_name(name);
                match position_of(&bank.preset_display_names, cleaned.as_str()) {
                    Some(p) => Ok(path_join(&bank.path, bank.preset_files[p].as_str())),
                    None => Err(PresetError::PresetNotFound),
                }
            },
        }
    }

    /// Path of the preset at the given index of the current bank.
    pub fn preset_path_at(&self, index: usize) -> (path: Result<PathBuf, PresetError>)
        ensures
            path == spec_path_at(self@, index as int),
    {
        let i = match self.find_bank(self.current_bank.as_str()) {
            Some(i) => i,
            None => return Err(PresetError::BankNotFound),
        };
        let bank = &self.banks[i];
        if index >= bank.preset_files.len() {
            return Err(PresetError::InvalidIndex);
        }
        proof {
            assert(bank@ == self@.banks[i as int]);
        }
        Ok(path_join(&bank.path, bank.preset_files[index].as_str()))
    }
}

/// A name without forbidden characters and without a ".json" ending is
/// displayed, once saved, as the name itself cleaned of a numeric prefix.
pub proof fn lemma_saved_display_name(name: Seq<char>)
    requires
        forall|i: int| 0 <= i < name.len() ==> !spec_is_forbidden_file_char(#[trigger] name[i]),
        spec_strip_json(name) == name,
    ensures
        spec_preset_filename(name) == name + ".json"@,
        spec_clean_display_name(spec_preset_filename(name)) == spec_clean_display_name(name),
{
    reveal_strlit(".json");
    let sanitized = name.map_values(|c: char| spec_sanitize_char(c));
    assert(sanitized =~= name) by {
        assert forall|i: int| 0 <= i < name.len() implies sanitized[i] == name[i] by {
            assert(!spec_is_forbidden_file_char(name[i]));
        }
    }
    let f = name + ".json"@;
    assert(f.subrange(f.len() - 5, f.len() as int) =~= ".json"@);
    assert(f.subrange(0, f.len() - 5) =~= name);
}

/// Any name, once saved, is displayed as the name with its forbidden
/// characters replaced by '_', cleaned of a numeric prefix ("Preset" when
/// nothing is left).
pub proof fn lemma_saved_display_name_any(name: Seq<char>)
    ensures
        spec_preset_filename(name) == spec_sanitize_name(name) + ".json"@,
        spec_clean_display_name(spec_preset_filename(name)) == spec_stem_display_name(
            spec_sanitize_name(name),
        ),
{
    reveal_strlit(".json");
    let f = spec_sanitize_name(name) + ".json"@;
    assert(f.subrange(f.len() - 5, f.len() as int) =~= ".json"@);
    assert(f.subrange(0, f.len() - 5) =~= spec_sanitize_name(name));
}

/// A file saved under a non-empty name is among the bank's presets once the
/// bank is re-indexed from a directory listing that holds it.
pub proof fn lemma_saved_file_indexed(
    files: Seq<Seq<char>>,
    names: Seq<Seq<char>>,
    entries: Seq<Seq<char>>,
    name: Seq<char>,
)
    requires
        spec_indexed(files, names, entries),
        entries.contains(spec_preset_filename(name)),
        name.len() > 0,
    ensures
        files.contains(spec_preset_filename(name)),
{
    reveal_strlit(".json");
    let f = spec_preset_filename(name);
    assert(f.subrange(f.len() - 5, f.len() as int) =~= ".json"@);
    assert(spec_is_preset_file(f));
    broadcast use vstd::seq_lib::group_filter_ensures;
    broadcast use vstd::seq_lib::group_to_multiset_ensures;
    assert(entries.filter(preset_file_pred()).contains(f));
    assert(entries.filter(preset_file_pred()).to_multiset().count(f) > 0);
    assert(files.to_multiset().count(f) > 0);
}

/// What a save writes, a load reads: when the current bank holds the file a
/// preset was saved to (under a name without forbidden characters and not
/// ending in ".json"), loading that name succeeds and reads a preset shown
/// under the name or under its cleaned form; when no other preset of the
/// bank is shown so, it reads exactly the file that was saved.
pub proof fn lemma_save_then_load(m: PresetManagerView, name: Seq<char>)
    requires
        spec_banks_wf(m.banks),
        spec_has_bank(m.banks, m.current_bank),
        forall|i: int| 0 <= i < name.len() ==> !spec_is_forbidden_file_char(#[trigger] name[i]),
        spec_strip_json(name) == name,
        spec_bank_named(m.banks, m.current_bank).preset_files.contains(spec_preset_filename(name)),
    ensures
        spec_load_path(m, name) is Ok,
        ({
            let b = spec_bank_named(m.banks, m.current_bank);
            exists|k: int|
                0 <= k < b.preset_files.len() && spec_load_path(m, name) == Ok::<PathBuf, PresetError>(
                    spec_file_path(b, k),
                ) && (b.preset_display_names[k] == name || b.preset_display_names[k]
                    == spec_clean_display_name(name))
        }),
        ({
            let b = spec_bank_named(m.banks, m.current_bank);
            (forall|j: int|
                0 <= j < b.preset_files.len() && (b.preset_display_names[j] == name
                    || b.preset_display_names[j] == spec_clean_display_name(name)) ==> b.preset_files[j]
                    == spec_preset_filename(name)) ==> spec_load_path(m, name) == spec_save_path(m, name)
        }),
{
    let b = spec_bank_named(m.banks, m.current_bank);
    assert(spec_bank_wf(b));
    lemma_saved_display_name(name);
    let f = spec_preset_filename(name);
    let k0 = choose|k: int| 0 <= k < b.preset_files.len() && b.preset_files[k] == f;
    assert(b.preset_display_names[k0] == spec_clean_display_name(f));
    let cleaned = spec_clean_display_name(name);
    match spec_position(b.preset_display_names, name) {
        Some(q) => {
            assert(spec_is_first_position(b.preset_display_names, name, q));
        },
        None => {
            // the cleaned name is found, at latest at the saved file
            let names = b.preset_display_names;
            assert(names[k0] == cleaned);
            // the first position of the cleaned name
            assert(exists|p: int| spec_is_first_position(names, cleaned, p)) by {
                lemma_first_position_exists(names, cleaned, k0);
            }
            let p = choose|p: int| spec_is_first_position(names, cleaned, p);
            assert(spec_position(names, cleaned) == Some(p));
        },
    }
}

proof fn lemma_first_position_exists(s: Seq<Seq<char>>, x: Seq<char>, k: int)
    requires
        0 <= k < s.len(),
        s[k] == x,
    ensures
        exists|p: int| spec_is_first_position(s, x, p),
    decreases k,
{
    if exists|j: int| 0 <= j < k && s[j] == x {
        let j = choose|j: int| 0 <= j < k && s[j] == x;
        lemma_first_position_exists(s, x, j);
    } else {
        assert(spec_is_first_position(s, x, k));
    }
}
/// The bank names a manager lists come out strictly ascending: sorted, and
/// no name twice (banks have distinct names).
pub proof fn lemma_bank_names_strictly_ascending(m: PresetManagerView, names: Seq<Seq<char>>)
    requires
        m.wf(),
        sorted_lex(names),
        names.to_multiset() == spec_bank_names(m.banks).to_multiset(),
    ensures
        forall|i: int, j: int| 0 <= i < j < names.len() ==> lex_lt(#[trigger] names[i], #[trigger] names[j]),
{
    let bn = spec_bank_names(m.banks);
    assert(bn.no_duplicates()) by {
        assert forall|i: int, j: int| 0 <= i < bn.len() && 0 <= j < bn.len() && i != j implies bn[i]
            != bn[j] by {
            assert(m.banks[i].name != m.banks[j].name);
        }
    }
    bn.lemma_multiset_has_no_duplicates();
    names.lemma_multiset_has_no_duplicates_conv();
    assert forall|i: int, j: int| 0 <= i < j < names.len() implies lex_lt(#[trigger] names[i], #[trigger] names[j]) by {
        assert(lex_le(names[i], names[j]));
        assert(names[i] != names[j]);
    }
}

/// A scan always leaves a "Default" bank.
pub proof fn lemma_scanned_has_default(
    banks: Seq<PresetBankView>,
    base_path: PathBuf,
    listing: Seq<BankListingView>,
)
    requires
        spec_scanned(banks, base_path, listing),
    ensures
        spec_has_bank(banks, "Default"@),
{
    if spec_listing_has(listing, "Default"@) {
        let k = choose|k: int| 0 <= k < listing.len() && #[trigger] listing[k].name == "Default"@;
        assert(spec_has_bank(banks, listing[k].name));
    } else {
        let prefix = choose|prefix: Seq<PresetBankView>|
            spec_banks_from_listing(prefix, listing) && banks == prefix.push(spec_default_bank(base_path));
        assert(spec_is_bank_at(banks, "Default"@, prefix.len() as int));
    }
}

/// Inserting a bank keeps every bank name and adds the inserted one.
pub proof fn lemma_insert_keeps_names(banks: Seq<PresetBankView>, b: PresetBankView, name: Seq<char>)
    ensures
        spec_has_bank(spec_insert_bank(banks, b), b.name),
        spec_has_bank(banks, name) ==> spec_has_bank(spec_insert_bank(banks, b), name),
{
    let nb = spec_insert_bank(banks, b);
    if spec_has_bank(banks, b.name) {
        let i = choose|i: int| spec_is_bank_at(banks, b.name, i);
        assert(spec_is_bank_at(nb, b.name, i));
        if spec_has_bank(banks, name) {
            let j = choose|j: int| spec_is_bank_at(banks, name, j);
            if j == i {
                assert(spec_is_bank_at(nb, b.name, i));
            } else {
                assert(spec_is_bank_at(nb, name, j));
            }
        }
    } else {
        assert(spec_is_bank_at(nb, b.name, banks.len() as int));
        if spec_has_bank(banks, name) {
            let j = choose|j: int| spec_is_bank_at(banks, name, j);
            assert(spec_is_bank_at(nb, name, j));
        }
    }
}

/// The bank chosen by the last successful switch of a run, or "Default"
/// when no switch succeeded (`Some(name)` marks a successful switch, `None`
/// any other call).
pub open spec fn spec_last_switch(switches: Seq<Option<Seq<char>>>) -> Seq<char>
    decreases switches.len(),
{
    if switches.len() == 0 {
        "Default"@
    } else {
        match switches.last() {
            Some(name) => name,
            None => spec_last_switch(switches.drop_last()),
        }
    }
}

/// Over a run of calls on a manager made by `with_path`, the current bank
/// is the one the last successful `switch_bank` chose, or "Default": each
/// successful switch sets it (as `switch_bank` ensures) and every other call
/// (a failed switch, `scan_banks`, `insert_bank`, `reindex_current_bank`)
/// keeps it (as each of them ensures).
pub proof fn lemma_current_is_last_switch(
    states: Seq<PresetManagerView>,
    switches: Seq<Option<Seq<char>>>,
)
    requires
        states.len() == switches.len() + 1,
        states[0].current_bank == "Default"@,
        forall|k: int|
            0 <= k < switches.len() ==> (#[trigger] states[k + 1]).current_bank == match switches[k] {
                Some(name) => name,
                None => states[k].current_bank,
            },
    ensures
        states.last().current_bank == spec_last_switch(switches),
    decreases switches.len(),
{
    if switches.len() > 0 {
        let n = switches.len() - 1;
        assert(states.drop_last().len() == switches.drop_last().len() + 1);
        assert forall|k: int| 0 <= k < switches.drop_last().len() implies (#[trigger] states.drop_last()[
            k + 1]).current_bank == match switches.drop_last()[k] {
            Some(name) => name,
            None => states.drop_last()[k].current_bank,
        } by {
            assert(states.drop_last()[k + 1] == states[k + 1]);
            assert(states.drop_last()[k] == states[k]);
            assert(switches.drop_last()[k] == switches[k]);
        }
        lemma_current_is_last_switch(states.drop_last(), switches.drop_last());
        assert(states[n + 1].current_bank == match switches[n] {
            Some(name) => name,
            None => states[n].current_bank,
        });
    }
}

} // verus!
