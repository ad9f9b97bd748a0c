//! OSC mapping configuration.

use vstd::prelude::*;
use crate::util::order::string_views;
use crate::util::text::{lemma_split_append, spec_split, split_char, str_eq};

verus! {

/// OSC mapping configuration (the address layout is fixed, so the mapping
/// carries no data).
#[derive(Debug, Clone, Copy, PartialEq, Eq, Structural)]
pub struct OscMapping;

impl Default for OscMapping {
    fn default() -> (m: Self)
        ensures
            m == OscMapping,
    {
        OscMapping
    }
}


/// Commands of the OSC address space:
/// /rusty404/trigger, /release, /volume, /speed, /bpm and /stop.
#[derive(Debug, Clone, Copy, PartialEq, Eq, Structural)]
pub enum OscCommand {
    Trigger,
    Release,
    Volume,
    Speed,
    Bpm,
    Stop,
}

pub open spec fn nonempty_pred() -> spec_fn(Seq<char>) -> bool {
    |p: Seq<char>| p.len() > 0
}

/// The non-empty components of an OSC address ("/a//b/" has components
/// "a" and "b").
pub open spec fn spec_address_parts(addr: Seq<char>) -> Seq<Seq<char>> {
    spec_split(addr, '/').filter(nonempty_pred())
}

pub open spec fn spec_command_named(name: Seq<char>) -> Option<OscCommand> {
    if name == "trigger"@ {
        Some(OscCommand::Trigger)
    } else if name == "release"@ {
        Some(OscCommand::Release)
    } else if name == "volume"@ {
        Some(OscCommand::Volume)
    } else if name == "speed"@ {
        Some(OscCommand::Speed)
    } else if name == "bpm"@ {
        Some(OscCommand::Bpm)
    } else if name == "stop"@ {
        Some(OscCommand::Stop)
    } else {
        None
    }
}

/// The command an OSC address names: exactly two components, "rusty404"
/// and a command name. Other addresses name no command.
pub open spec fn spec_parse_osc_address(addr: Seq<char>) -> Option<OscCommand> {
    let parts = spec_address_parts(addr);
    if parts.len() == 2 && parts[0] == "rusty404"@ {
        spec_command_named(parts[1])
    } else {
        None
    }
}

fn command_named(name: &str) -> (c: Option<OscCommand>)
    ensures
        c == spec_command_named(name@),
{
    if str_eq(name, "trigger") {
        Some(OscCommand::Trigger)
    } else if str_eq(name, "release") {
        Some(OscCommand::Release)
    } else if str_eq(name, "volume") {
        Some(OscCommand::Volume)
    } else if str_eq(name, "speed") {
        Some(OscCommand::Speed)
    } else if str_eq(name, "bpm") {
        Some(OscCommand::Bpm)
    } else if str_eq(name, "stop") {
        Some(OscCommand::Stop)
    } else {
        None
    }
}

/// The command an OSC message address names; the message arguments are
/// read by the application according to the command.
pub fn parse_osc_address(addr: &str) -> (c: Option<OscCommand>)
    ensures
        c == spec_parse_osc_address(addr@),
{
    let pieces = split_char(addr, '/');
    let ghost pv = string_views(pieces@);
    let mut parts: Vec<String> = Vec::new();
    for i in 0..pieces.len()
        invariant
            pv == string_views(pieces@),
            string_views(parts@) == pv.take(i as int).filter(nonempty_pred()),
    {
        proof {
            assert(pv.take(i + 1) =~= pv.take(i as int).push(pv[i as int]));
            pv.take(i as int).lemma_filter_push(pv[i as int], nonempty_pred());
        }
        if pieces[i].unicode_len() > 0 {
            let p = pieces[i].clone();
            proof {
                assert(string_views(parts@.push(p)) =~= string_views(parts@).push(p@));
            }
            parts.push(p);
        }
    }
    proof {
        assert(pv.take(pieces@.len() as int) =~= pv);
    }
    if parts.len() == 2 && str_eq(parts[0].as_str(), "rusty404") {
        proof {
            assert(string_views(parts@)[1] == parts@[1]@);
        }
        command_named(parts[1].as_str())
    } else {
        None
    }
}
/// An address "/rusty404/<word>", for a word without '/', names the
/// command called by that word.
proof fn lemma_osc_address_word(w: Seq<char>)
    requires
        w.len() > 0,
        !w.contains('/'),
    ensures
        spec_parse_osc_address("/rusty404/"@ + w) == spec_command_named(w),
{
    reveal_strlit("/rusty404/");
    reveal_strlit("rusty404");
    let r = "rusty404"@;
    let e = Seq::<char>::empty();
    assert(!r.contains('/')) by {
        if r.contains('/') {
            let i = choose|i: int| 0 <= i < r.len() && r[i] == '/';
            assert(r[i] != '/');
        }
    }
    let a = e + seq!['/'] + r;
    lemma_split_append(e, '/', r);
    assert(spec_split(e, '/') == seq![e]);
    lemma_split_append(a, '/', w);
    assert("/rusty404/"@ + w =~= a + seq!['/'] + w);
    let parts = seq![e].push(r).push(w);
    assert(spec_split("/rusty404/"@ + w, '/') == parts);
    let p = nonempty_pred();
    assert(Seq::<Seq<char>>::empty().filter(p) =~= Seq::<Seq<char>>::empty()) by {
        reveal(Seq::filter);
    }
    Seq::<Seq<char>>::empty().lemma_filter_push(e, p);
    assert(seq![e] =~= Seq::<Seq<char>>::empty().push(e));
    seq![e].lemma_filter_push(r, p);
    seq![e].push(r).lemma_filter_push(w, p);
    assert(spec_address_parts("/rusty404/"@ + w) =~= seq![r, w]);
}

/// The address space: "/rusty404/trigger", "/release", "/volume",
/// "/speed", "/bpm" and "/stop" name the commands of those names.
pub proof fn lemma_osc_commands_by_name()
    ensures
        spec_parse_osc_address("/rusty404/trigger"@) == Some(OscCommand::Trigger),
        spec_parse_osc_address("/rusty404/release"@) == Some(OscCommand::Release),
        spec_parse_osc_address("/rusty404/volume"@) == Some(OscCommand::Volume),
        spec_parse_osc_address("/rusty404/speed"@) == Some(OscCommand::Speed),
        spec_parse_osc_address("/rusty404/bpm"@) == Some(OscCommand::Bpm),
        spec_parse_osc_address("/rusty404/stop"@) == Some(OscCommand::Stop),
{
    reveal_strlit("/rusty404/");
    reveal_strlit("/rusty404/trigger");
    reveal_strlit("/rusty404/release");
    reveal_strlit("/rusty404/volume");
    reveal_strlit("/rusty404/speed");
    reveal_strlit("/rusty404/bpm");
    reveal_strlit("/rusty404/stop");
    reveal_strlit("trigger");
    reveal_strlit("release");
    reveal_strlit("volume");
    reveal_strlit("speed");
    reveal_strlit("bpm");
    reveal_strlit("stop");
    let words = seq!["trigger"@, "release"@, "volume"@, "speed"@, "bpm"@, "stop"@];
    assert forall|k: int| 0 <= k < 6 implies !(#[trigger] words[k]).contains('/') by {
        let w = words[k];
        if w.contains('/') {
            let i = choose|i: int| 0 <= i < w.len() && w[i] == '/';
            assert(w[i] != '/');
        }
    }
    assert(words[0] == "trigger"@ && words[1] == "release"@ && words[2] == "volume"@);
    assert(words[3] == "speed"@ && words[4] == "bpm"@ && words[5] == "stop"@);
    lemma_osc_address_word("trigger"@);
    lemma_osc_address_word("release"@);
    lemma_osc_address_word("volume"@);
    lemma_osc_address_word("speed"@);
    lemma_osc_address_word("bpm"@);
    lemma_osc_address_word("stop"@);
    assert("/rusty404/trigger"@ =~= "/rusty404/"@ + "trigger"@);
    assert("/rusty404/release"@ =~= "/rusty404/"@ + "release"@);
    assert("/rusty404/volume"@ =~= "/rusty404/"@ + "volume"@);
    assert("/rusty404/speed"@ =~= "/rusty404/"@ + "speed"@);
    assert("/rusty404/bpm"@ =~= "/rusty404/"@ + "bpm"@);
    assert("/rusty404/stop"@ =~= "/rusty404/"@ + "stop"@);
    assert("release"@[0] != "trigger"@[0]);
    assert("volume"@[0] != "trigger"@[0] && "volume"@[0] != "release"@[0]);
    assert("speed"@[0] != "trigger"@[0] && "speed"@[0] != "release"@[0] && "speed"@[0] != "volume"@[0]);
    assert("bpm"@[0] != "trigger"@[0] && "bpm"@[0] != "release"@[0] && "bpm"@[0] != "volume"@[0]
        && "bpm"@[0] != "speed"@[0]);
    assert("stop"@[0] != "trigger"@[0] && "stop"@[0] != "release"@[0] && "stop"@[0] != "volume"@[0]
        && "stop"@[1] != "speed"@[1] && "stop"@[0] != "bpm"@[0]);
}

} // verus!
