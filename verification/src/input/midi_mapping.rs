//! MIDI mapping vocabulary: which kind of message a mapping listens to and
//! the defaults that configuration files may omit.

use vstd::prelude::*;
use crate::input::events::MidiEvent;
use crate::input::midi::MidiAction;
use crate::util::order::string_views;
use crate::util::text::{
    append_decimal, lemma_parse_decimal, lemma_split_append, lemma_split_no_sep, parse_usize,
    spec_decimal, spec_parse_usize, spec_split, split_char, str_eq,
};

verus! {

/// Type of MIDI message for mapping
#[derive(Debug, Clone, Copy, PartialEq, Eq, Structural)]
pub enum MidiMappingType {
    /// Note On/Off for pad triggering
    Note,
    /// Control Change for parameters
    ControlChange,
}

/// Response curve assumed when a mapping names none.
pub fn default_curve() -> (curve: String)
    ensures
        curve@ == "linear"@,
{
    String::from_str("linear")
}

/// Whether the default note layout is on when a configuration omits it.
pub fn default_true() -> (b: bool)
    ensures
        b,
{
    true
}


/// A mapping of the given type, channel and number responds to a MIDI
/// event: notes (on or off) for a note mapping, controller changes for a
/// controller mapping, with the same note or controller number, on the
/// mapping's channel or on any channel when the mapping's channel is 0.
pub open spec fn spec_mapping_matches(
    msg_type: MidiMappingType,
    channel: u8,
    number: u8,
    event: MidiEvent,
) -> bool {
    match (msg_type, event) {
        (MidiMappingType::Note, MidiEvent::NoteOn { channel: c, note, .. }) => (channel == 0
            || channel == c) && number == note,
        (MidiMappingType::Note, MidiEvent::NoteOff { channel: c, note }) => (channel == 0 || channel
            == c) && number == note,
        (MidiMappingType::ControlChange, MidiEvent::ControlChange { channel: c, cc, .. }) => (channel
            == 0 || channel == c) && number == cc,
        _ => false,
    }
}

/// Check if a MIDI event matches a mapping of the given type, channel and
/// note or controller number.
pub fn mapping_matches(msg_type: MidiMappingType, channel: u8, number: u8, event: &MidiEvent) -> (m:
    bool)
    ensures
        m == spec_mapping_matches(msg_type, channel, number, *event),
{
    match (msg_type, event) {
        (MidiMappingType::Note, MidiEvent::NoteOn { channel: c, note, .. }) => (channel == 0
            || channel == *c) && number == *note,
        (MidiMappingType::Note, MidiEvent::NoteOff { channel: c, note }) => (channel == 0 || channel
            == *c) && number == *note,
        (MidiMappingType::ControlChange, MidiEvent::ControlChange { channel: c, cc, .. }) => (channel
            == 0 || channel == *c) && number == *cc,
        _ => false,
    }
}

/// The action a matching event asks for under a mapping whose control id is
/// `control_id`:
/// - "pad.trigger.N": a Note On triggers pad N, a Note Off releases it;
/// - "pad.volume.N" / "pad.speed.N": a controller sets pad N's volume/speed;
/// - "global.bpm": a controller sets the tempo;
/// where N is a decimal pad number. Anything else asks for nothing.
pub open spec fn spec_mapping_action(
    msg_type: MidiMappingType,
    channel: u8,
    number: u8,
    control_id: Seq<char>,
    event: MidiEvent,
) -> Option<MidiAction> {
    if !spec_mapping_matches(msg_type, channel, number, event) {
        None
    } else {
        let parts = spec_split(control_id, '.');
        if parts.len() == 3 && parts[0] == "pad"@ && parts[1] == "trigger"@ {
            match spec_parse_usize(parts[2]) {
                None => None,
                Some(pad) => match event {
                    MidiEvent::NoteOn { velocity, .. } => Some(MidiAction::PadTrigger { pad, velocity }),
                    MidiEvent::NoteOff { .. } => Some(MidiAction::PadRelease { pad }),
                    _ => None,
                },
            }
        } else if parts.len() == 3 && parts[0] == "pad"@ {
            match spec_parse_usize(parts[2]) {
                None => None,
                Some(pad) => match event {
                    MidiEvent::ControlChange { value, .. } => if parts[1] == "volume"@ {
                        Some(MidiAction::PadVolume { pad, value })
                    } else if parts[1] == "speed"@ {
                        Some(MidiAction::PadSpeed { pad, value })
                    } else {
                        None
                    },
                    _ => None,
                },
            }
        } else if parts.len() == 2 && parts[0] == "global"@ && parts[1] == "bpm"@ {
            match event {
                MidiEvent::ControlChange { value, .. } => Some(MidiAction::SetBpm { value }),
                _ => None,
            }
        } else {
            None
        }
    }
}

/// Convert a MIDI event to the action a mapping asks for. Controller values
/// are returned raw; the mapping's range, inversion and curve scale them.
pub fn mapping_action(
    msg_type: MidiMappingType,
    channel: u8,
    number: u8,
    control_id: &str,
    event: &MidiEvent,
) -> (action: Option<MidiAction>)
    ensures
        action == spec_mapping_action(msg_type, channel, number, control_id@, *event),
{
    if !mapping_matches(msg_type, channel, number, event) {
        return None;
    }
    let parts = split_char(control_id, '.');
    let ghost pv = string_views(parts@);
    proof {
        assert(pv == spec_split(control_id@, '.'));
    }
    if parts.len() == 3 && str_eq(parts[0].as_str(), "pad") && str_eq(parts[1].as_str(), "trigger") {
        proof {
            assert(pv[2] == parts@[2]@);
        }
        let pad = match parse_usize(parts[2].as_str()) {
            Some(p) => p,
            None => return None,
        };
        match event {
            MidiEvent::NoteOn { velocity, .. } => Some(MidiAction::PadTrigger { pad, velocity: *velocity }),
            MidiEvent::NoteOff { .. } => Some(MidiAction::PadRelease { pad }),
            _ => None,
        }
    } else if parts.len() == 3 && str_eq(parts[0].as_str(), "pad") {
        proof {
            assert(pv[2] == parts@[2]@);
            assert(pv[1] == parts@[1]@);
        }
        let pad = match parse_usize(parts[2].as_str()) {
            Some(p) => p,
            None => return None,
        };
        match event {
            MidiEvent::ControlChange { value, .. } => {
                if str_eq(parts[1].as_str(), "volume") {
                    Some(MidiAction::PadVolume { pad, value: *value })
                } else if str_eq(parts[1].as_str(), "speed") {
                    Some(MidiAction::PadSpeed { pad, value: *value })
                } else {
                    None
                }
            },
            _ => None,
        }
    } else if parts.len() == 2 && str_eq(parts[0].as_str(), "global") && str_eq(
        parts[1].as_str(),
        "bpm",
    ) {
        match event {
            MidiEvent::ControlChange { value, .. } => Some(MidiAction::SetBpm { value: *value }),
            _ => None,
        }
    } else {
        None
    }
}

/// The mapping MIDI learn creates from a message: a note mapping from a
/// Note On, a controller mapping from a Control Change, each on the
/// message's channel and number. Note Offs teach nothing.
pub open spec fn spec_learned_binding(event: MidiEvent) -> Option<(MidiMappingType, u8, u8)> {
    match event {
        MidiEvent::NoteOn { channel, note, .. } => Some((MidiMappingType::Note, channel, note)),
        MidiEvent::ControlChange { channel, cc, .. } => Some(
            (MidiMappingType::ControlChange, channel, cc),
        ),
        MidiEvent::NoteOff { .. } => None,
    }
}

/// Message type, channel and number that MIDI learn binds to an event.
pub fn learned_binding(event: &MidiEvent) -> (binding: Option<(MidiMappingType, u8, u8)>)
    ensures
        binding == spec_learned_binding(*event),
{
    match event {
        MidiEvent::NoteOn { channel, note, .. } => Some((MidiMappingType::Note, *channel, *note)),
        MidiEvent::ControlChange { channel, cc, .. } => Some(
            (MidiMappingType::ControlChange, *channel, *cc),
        ),
        MidiEvent::NoteOff { .. } => None,
    }
}

/// The note of a note message, or the controller number of a controller
/// message.
pub open spec fn spec_event_number(event: MidiEvent) -> u8 {
    match event {
        MidiEvent::NoteOn { note, .. } => note,
        MidiEvent::NoteOff { note, .. } => note,
        MidiEvent::ControlChange { cc, .. } => cc,
    }
}

/// A mapping answers exactly the messages of its kind (Note On and Note Off
/// for a note mapping, controller changes for a controller mapping) with its
/// note or controller number, on its channel or, for channel 0, on any
/// channel. In particular a mapping on a nonzero channel answers no message
/// from another channel, Note Offs included, and asks for no action.
pub proof fn lemma_mapping_answers(
    msg_type: MidiMappingType,
    channel: u8,
    number: u8,
    control_id: Seq<char>,
    event: MidiEvent,
)
    ensures
        spec_mapping_matches(msg_type, channel, number, event) <==> {
            &&& (msg_type == MidiMappingType::Note <==> !(event is ControlChange))
            &&& (channel == 0 || channel == event.spec_channel())
            &&& number == spec_event_number(event)
        },
        channel != 0 && event.spec_channel() != channel ==> !spec_mapping_matches(
            msg_type,
            channel,
            number,
            event,
        ),
        channel != 0 && event.spec_channel() != channel ==> spec_mapping_action(
            msg_type,
            channel,
            number,
            control_id,
            event,
        ) is None,
{
}

/// A mapping learned from a message responds to that message again, and a
/// note mapping learned from a Note On also responds to the Note Off of the
/// same note on the same channel.
pub proof fn lemma_learned_binding_matches(event: MidiEvent)
    ensures
        spec_learned_binding(event) matches Some((t, c, n)) ==> {
            &&& spec_mapping_matches(t, c, n, event)
            &&& (event matches MidiEvent::NoteOn { channel, note, .. } ==> spec_mapping_matches(
                t,
                c,
                n,
                MidiEvent::NoteOff { channel, note },
            ))
        },
{
}

/// Control id of a pad parameter: "pad.<param>.<pad>" ("pad.trigger.3",
/// "pad.volume.0", ...).
pub open spec fn spec_pad_control_id(param: Seq<char>, pad: usize) -> Seq<char> {
    "pad."@ + param + "."@ + spec_decimal(pad as nat)
}

/// The control id under which a pad parameter is mapped.
pub fn pad_control_id(param: &str, pad: usize) -> (id: String)
    ensures
        id@ == spec_pad_control_id(param@, pad),
{
    let mut id = String::from_str("pad.");
    id.append(param);
    id.append(".");
    append_decimal(&mut id, pad);
    id
}

/// Control ids written for a pad are read back as that pad: a Note On that
/// a "pad.trigger.N" mapping matches triggers pad N with the note's
/// velocity (its Note Off releases pad N), and a controller that a
/// "pad.volume.N" or "pad.speed.N" mapping matches sets that parameter of
/// pad N to the controller's value.
pub proof fn lemma_pad_control_id_roundtrip(
    msg_type: MidiMappingType,
    channel: u8,
    number: u8,
    pad: usize,
    event: MidiEvent,
)
    requires
        spec_mapping_matches(msg_type, channel, number, event),
    ensures
        event matches MidiEvent::NoteOn { velocity, .. } ==> spec_mapping_action(
            msg_type,
            channel,
            number,
            spec_pad_control_id("trigger"@, pad),
            event,
        ) == Some(MidiAction::PadTrigger { pad, velocity }),
        event is NoteOff ==> spec_mapping_action(
            msg_type,
            channel,
            number,
            spec_pad_control_id("trigger"@, pad),
            event,
        ) == Some(MidiAction::PadRelease { pad }),
        event matches MidiEvent::ControlChange { value, .. } ==> spec_mapping_action(
            msg_type,
            channel,
            number,
            spec_pad_control_id("volume"@, pad),
            event,
        ) == Some(MidiAction::PadVolume { pad, value }),
        event matches MidiEvent::ControlChange { value, .. } ==> spec_mapping_action(
            msg_type,
            channel,
            number,
            spec_pad_control_id("speed"@, pad),
            event,
        ) == Some(MidiAction::PadSpeed { pad, value }),
{
    reveal_strlit("pad.");
    reveal_strlit(".");
    reveal_strlit("pad");
    reveal_strlit("trigger");
    reveal_strlit("volume");
    reveal_strlit("speed");
    lemma_parse_decimal(pad);
    let dec = spec_decimal(pad as nat);
    assert(!"pad"@.contains('.'));
    lemma_split_no_sep("pad"@, '.');
    assert forall|param: Seq<char>| param == "trigger"@ || param == "volume"@ || param == "speed"@ implies
        #[trigger] spec_split(spec_pad_control_id(param, pad), '.') == seq!["pad"@, param, dec] by {
        assert(!param.contains('.'));
        lemma_split_append("pad"@, '.', param);
        let head = "pad"@ + seq!['.'] + param;
        lemma_split_append(head, '.', dec);
        assert(spec_pad_control_id(param, pad) =~= head + seq!['.'] + dec);
        assert(seq!["pad"@].push(param).push(dec) =~= seq!["pad"@, param, dec]);
    }
    assert(spec_split(spec_pad_control_id("trigger"@, pad), '.') == seq!["pad"@, "trigger"@, dec]);
    assert(spec_split(spec_pad_control_id("volume"@, pad), '.') == seq!["pad"@, "volume"@, dec]);
    assert(spec_split(spec_pad_control_id("speed"@, pad), '.') == seq!["pad"@, "speed"@, dec]);
    assert("volume"@ != "trigger"@) by {
        assert("volume"@[0] != "trigger"@[0]);
    }
    assert("speed"@ != "trigger"@) by {
        assert("speed"@[0] != "trigger"@[0]);
    }
    assert("speed"@ != "volume"@) by {
        assert("speed"@[0] != "volume"@[0]);
    }
}

/// A single MIDI mapping entry: the control it drives ("pad.trigger.0",
/// "pad.volume.3", "global.bpm", ...), the message type, channel (0 = any)
/// and note or controller number it listens to, and the value range it
/// scales controller values to. The range (bounds, inversion, curve) is
/// floating point; the application chooses its type `R`.
pub struct MidiMappingEntry<R> {
    pub control_id: String,
    pub msg_type: MidiMappingType,
    pub channel: u8,
    pub number: u8,
    pub range: R,
}

impl<R> MidiMappingEntry<R> {
    /// A note mapping that triggers a pad.
    pub fn pad_note(pad_index: usize, note: u8, channel: u8, range: R) -> (e: Self)
        ensures
            e.control_id@ == spec_pad_control_id("trigger"@, pad_index),
            e.msg_type == MidiMappingType::Note,
            e.channel == channel,
            e.number == note,
            e.range == range,
    {
        proof {
            reveal_strlit("trigger");
        }
        MidiMappingEntry {
            control_id: pad_control_id("trigger", pad_index),
            msg_type: MidiMappingType::Note,
            channel,
            number: note,
            range,
        }
    }

    /// A controller mapping for a pad parameter ("volume", "speed").
    pub fn pad_cc(pad_index: usize, param: &str, cc: u8, channel: u8, range: R) -> (e: Self)
        ensures
            e.control_id@ == spec_pad_control_id(param@, pad_index),
            e.msg_type == MidiMappingType::ControlChange,
            e.channel == channel,
            e.number == cc,
            e.range == range,
    {
        MidiMappingEntry {
            control_id: pad_control_id(param, pad_index),
            msg_type: MidiMappingType::ControlChange,
            channel,
            number: cc,
            range,
        }
    }

    /// A controller mapping for the tempo.
    pub fn global_bpm(cc: u8, channel: u8, range: R) -> (e: Self)
        ensures
            e.control_id@ == "global.bpm"@,
            e.msg_type == MidiMappingType::ControlChange,
            e.channel == channel,
            e.number == cc,
            e.range == range,
    {
        MidiMappingEntry {
            control_id: String::from_str("global.bpm"),
            msg_type: MidiMappingType::ControlChange,
            channel,
            number: cc,
            range,
        }
    }

    /// Check if a MIDI event matches this mapping
    pub fn matches(&self, event: &MidiEvent) -> (m: bool)
        ensures
            m == spec_mapping_matches(self.msg_type, self.channel, self.number, *event),
    {
        mapping_matches(self.msg_type, self.channel, self.number, event)
    }

    /// The action a MIDI event asks for under this mapping, with raw 7-bit
    /// values (the range scales controller values).
    pub fn to_action(&self, event: &MidiEvent) -> (action: Option<MidiAction>)
        ensures
            action == spec_mapping_action(
                self.msg_type,
                self.channel,
                self.number,
                self.control_id@,
                *event,
            ),
    {
        mapping_action(self.msg_type, self.channel, self.number, self.control_id.as_str(), event)
    }
}

/// Complete MIDI mapping configuration
pub struct MidiMappingConfig<R> {
    pub mappings: Vec<MidiMappingEntry<R>>,
    /// Whether to use the default note mapping (notes 36-51 -> pads 0-15)
    pub use_default_note_mapping: bool,
}

/// Entries for controls other than `id`.
pub open spec fn other_control<R>(id: Seq<char>) -> spec_fn(MidiMappingEntry<R>) -> bool {
    |e: MidiMappingEntry<R>| e.control_id@ != id
}

/// `i` is the first entry that responds to `event`.
pub open spec fn spec_first_match<R>(mappings: Seq<MidiMappingEntry<R>>, event: MidiEvent, i: int) -> bool {
    &&& 0 <= i < mappings.len()
    &&& spec_mapping_matches(mappings[i].msg_type, mappings[i].channel, mappings[i].number, event)
    &&& forall|j: int|
        0 <= j < i ==> !spec_mapping_matches(
            #[trigger] mappings[j].msg_type,
            mappings[j].channel,
            mappings[j].number,
            event,
        )
}

/// Take the entries of `v` for controls other than `id`, keeping their order.
fn take_other_controls<R>(v: &mut Vec<MidiMappingEntry<R>>, id: &str) -> (kept: Vec<MidiMappingEntry<R>>)
    ensures
        kept@ == old(v)@.filter(other_control(id@)),
{
    let ghost orig = v@;
    let mut kept: Vec<MidiMappingEntry<R>> = Vec::new();
    let ghost mut k: int = 0;
    while v.len() > 0
        invariant
            0 <= k <= orig.len(),
            v@ == orig.skip(k),
            kept@ == orig.take(k).filter(other_control(id@)),
        decreases v@.len(),
    {
        let e = v.remove(0);
        proof {
            assert(e == orig[k]);
            assert(orig.take(k + 1) =~= orig.take(k).push(e));
            orig.take(k).lemma_filter_push(e, other_control(id@));
            assert(v@ =~= orig.skip(k + 1));
        }
        if !str_eq(e.control_id.as_str(), id) {
            kept.push(e);
        }
        proof {
            k = k + 1;
        }
    }
    proof {
        assert(orig.take(k) =~= orig);
    }
    kept
}

impl<R> MidiMappingConfig<R> {
    /// No mappings; the default note mapping is on.
    pub fn new() -> (c: Self)
        ensures
            c.mappings@ == Seq::<MidiMappingEntry<R>>::empty(),
            c.use_default_note_mapping,
    {
        MidiMappingConfig { mappings: Vec::new(), use_default_note_mapping: true }
    }

    /// The first mapping that responds to a MIDI event.
    pub fn find_mapping(&self, event: &MidiEvent) -> (found: Option<&MidiMappingEntry<R>>)
        ensures
            match found {
                Some(e) => exists|i: int| spec_first_match(self.mappings@, *event, i) && *e == self.mappings@[i],
                None => forall|i: int|
                    0 <= i < self.mappings@.len() ==> !spec_mapping_matches(
                        #[trigger] self.mappings@[i].msg_type,
                        self.mappings@[i].channel,
                        self.mappings@[i].number,
                        *event,
                    ),
            },
    {
        let n = self.mappings.len();
        let mut i: usize = 0;
        while i < n
            invariant
                n == self.mappings@.len(),
                i <= n,
                forall|j: int|
                    0 <= j < i ==> !spec_mapping_matches(
                        #[trigger] self.mappings@[j].msg_type,
                        self.mappings@[j].channel,
                        self.mappings@[j].number,
                        *event,
                    ),
            decreases n - i,
        {
            if self.mappings[i].matches(event) {
                proof {
                    assert(spec_first_match(self.mappings@, *event, i as int));
                }
                return Some(&self.mappings[i]);
            }
            i = i + 1;
        }
        None
    }

    /// Add a mapping, replacing any mapping of the same control.
    pub fn add_mapping(&mut self, mapping: MidiMappingEntry<R>)
        ensures
            final(self).mappings@ == old(self).mappings@.filter(other_control(mapping.control_id@)).push(
                mapping,
            ),
            final(self).use_default_note_mapping == old(self).use_default_note_mapping,
    {
        let mut kept = take_other_controls(&mut self.mappings, mapping.control_id.as_str());
        kept.push(mapping);
        self.mappings = kept;
    }

    /// Remove the mappings of a control.
    pub fn remove_mapping(&mut self, control_id: &str)
        ensures
            final(self).mappings@ == old(self).mappings@.filter(other_control(control_id@)),
            final(self).use_default_note_mapping == old(self).use_default_note_mapping,
    {
        let kept = take_other_controls(&mut self.mappings, control_id);
        self.mappings = kept;
    }
}

/// Each control has at most one mapping after `add_mapping`: the mapping
/// added is the only one of its control.
pub proof fn lemma_add_mapping_replaces<R>(mappings: Seq<MidiMappingEntry<R>>, m: MidiMappingEntry<R>)
    ensures
        ({
            let after = mappings.filter(other_control(m.control_id@)).push(m);
            &&& after.last() == m
            &&& forall|i: int| 0 <= i < after.len() - 1 ==> (#[trigger] after[i]).control_id@ != m.control_id@
        }),
{
    broadcast use vstd::seq_lib::group_filter_ensures;

    let f = mappings.filter(other_control(m.control_id@));
    assert forall|i: int| 0 <= i < f.len() implies (#[trigger] f[i]).control_id@ != m.control_id@ by {
        assert(other_control(m.control_id@)(f[i]));
    }
    assert forall|i: int| 0 <= i < f.push(m).len() - 1 implies (#[trigger] f.push(m)[i]).control_id@
        != m.control_id@ by {
        assert(f.push(m)[i] == f[i]);
    }
}

/// How long MIDI learn waits for a message, in milliseconds.
pub const LEARN_TIMEOUT_MS: u64 = 10_000;

/// MIDI learn: the control the next note or controller message is bound
/// to, and when learning started. Times are milliseconds on a clock the
/// caller reads; the parameter range (floating point) stays with the
/// caller, who puts it on the mapping that learning produces.
pub struct MidiLearnState {
    /// Whether learn mode is active
    pub active: bool,
    /// What we're learning for (e.g., "pad.volume.3")
    pub target_control: String,
    /// When learning started
    pub start_time: Option<u64>,
    /// How long learning waits
    pub timeout: u64,
}

/// A binding learned from a message: the control, and the message type,
/// channel and number that now drive it.
#[derive(Debug, Clone, PartialEq, Eq)]
pub struct LearnedMapping {
    pub control_id: String,
    pub msg_type: MidiMappingType,
    pub channel: u8,
    pub number: u8,
}

/// Learning is on and has not timed out at `now` (a clock that reads
/// earlier than the start counts as no time elapsed).
pub open spec fn spec_learn_active(active: bool, start_time: Option<u64>, timeout: u64, now: u64) -> bool {
    active && match start_time {
        Some(t) => !(now > t && now - t > timeout),
        None => true,
    }
}

impl MidiLearnState {
    pub open spec fn is_active_at(&self, now: u64) -> bool {
        spec_learn_active(self.active, self.start_time, self.timeout, now)
    }

    /// Not learning; waits ten seconds once started.
    pub fn new() -> (s: Self)
        ensures
            !s.active,
            s.target_control@ == Seq::<char>::empty(),
            s.start_time is None,
            s.timeout == LEARN_TIMEOUT_MS,
    {
        MidiLearnState {
            active: false,
            target_control: String::new(),
            start_time: None,
            timeout: LEARN_TIMEOUT_MS,
        }
    }

    /// Start learning for a control at time `now`.
    pub fn start(&mut self, control_id: &str, now: u64)
        ensures
            final(self).active,
            final(self).target_control@ == control_id@,
            final(self).start_time == Some(now),
            final(self).timeout == old(self).timeout,
    {
        self.active = true;
        self.target_control = String::from_str(control_id);
        self.start_time = Some(now);
    }

    /// Cancel learning
    pub fn cancel(&mut self)
        ensures
            !final(self).active,
            final(self).target_control@ == Seq::<char>::empty(),
            final(self).start_time is None,
            final(self).timeout == old(self).timeout,
    {
        self.active = false;
        self.target_control = String::new();
        self.start_time = None;
    }

    /// Check if learning is active (and not timed out) at time `now`.
    pub fn is_active(&self, now: u64) -> (b: bool)
        ensures
            b == self.is_active_at(now),
    {
        if !self.active {
            return false;
        }
        match self.start_time {
            Some(t) => !(now > t && now - t > self.timeout),
            None => true,
        }
    }

    /// Check if learning a specific control at time `now`.
    pub fn is_learning(&self, control_id: &str, now: u64) -> (b: bool)
        ensures
            b == (self.is_active_at(now) && self.target_control@ == control_id@),
    {
        self.is_active(now) && str_eq(self.target_control.as_str(), control_id)
    }

    /// Handle a MIDI message at time `now` during learn mode: a Note On or a
    /// Control Change ends learning and binds the target control to its
    /// type, channel and number. Other messages, or a message while not
    /// learning, change nothing.
    pub fn handle_message(&mut self, event: &MidiEvent, now: u64) -> (learned: Option<LearnedMapping>)
        ensures
            ({
                let binding = spec_learned_binding(*event);
                if old(self).is_active_at(now) && binding is Some {
                    let (t, c, n) = binding->0;
                    &&& learned matches Some(m)
                    &&& m.control_id@ == old(self).target_control@
                    &&& m.msg_type == t && m.channel == c && m.number == n
                    &&& !final(self).active
                    &&& final(self).start_time is None
                    &&& final(self).target_control == old(self).target_control
                    &&& final(self).timeout == old(self).timeout
                } else {
                    learned is None && *final(self) == *old(self)
                }
            }),
    {
        if !self.is_active(now) {
            return None;
        }
        match learned_binding(event) {
            Some((msg_type, channel, number)) => {
                self.active = false;
                self.start_time = None;
                Some(
                    LearnedMapping {
                        control_id: self.target_control.clone(),
                        msg_type,
                        channel,
                        number,
                    },
                )
            },
            None => None,
        }
    }

    /// The control being learned at time `now`, if learning is active.
    pub fn target(&self, now: u64) -> (t: Option<&str>)
        ensures
            self.is_active_at(now) ==> (t matches Some(c) && c@ == self.target_control@),
            !self.is_active_at(now) ==> t is None,
    {
        if self.is_active(now) {
            Some(self.target_control.as_str())
        } else {
            None
        }
    }
}

impl Default for MidiLearnState {
    fn default() -> (s: Self)
        ensures
            !s.active,
            s.target_control@ == Seq::<char>::empty(),
            s.start_time is None,
            s.timeout == LEARN_TIMEOUT_MS,
    {
        Self::new()
    }
}

/// Learning started at `start` (as `start` leaves it) is still active up
/// to the timeout and over after it; answered in time by a Note On or a
/// Control Change, it binds the control to a mapping that responds to that
/// message.
pub proof fn lemma_learn_window(s: MidiLearnState, start: u64, now: u64, event: MidiEvent)
    requires
        s.active,
        s.start_time == Some(start),
    ensures
        s.is_active_at(now) <==> (now <= start || now - start <= s.timeout),
        s.is_active_at(now) && !(event is NoteOff) ==> (spec_learned_binding(event) matches Some(
            (t, c, n),
        ) && spec_mapping_matches(t, c, n, event)),
{
}

} // verus!
