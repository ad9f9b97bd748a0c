//! Audio routing system.
//!
//! Routes FFT frequency bands to video sampler parameters for audio-reactive visuals.

use vstd::prelude::*;
use crate::util::text::{decimal_between, spec_decimal};

verus! {

/// FFT frequency bands (8-band spectrum)
#[derive(Debug, Clone, Copy, PartialEq, Eq, Hash, Structural)]
pub enum FftBand {
    SubBass,   // 20-60 Hz
    Bass,      // 60-120 Hz
    LowMid,    // 120-250 Hz
    Mid,       // 250-500 Hz
    HighMid,   // 500-2000 Hz
    High,      // 2000-4000 Hz
    VeryHigh,  // 4000-8000 Hz
    Presence,  // 8000-16000 Hz
}

/// The bands from lowest to highest frequency; a band's position in this
/// sequence is its index in the spectrum.
pub open spec fn spec_all_bands() -> Seq<FftBand> {
    seq![
        FftBand::SubBass,
        FftBand::Bass,
        FftBand::LowMid,
        FftBand::Mid,
        FftBand::HighMid,
        FftBand::High,
        FftBand::VeryHigh,
        FftBand::Presence,
    ]
}

pub open spec fn spec_band_name(b: FftBand) -> Seq<char> {
    match b {
        FftBand::SubBass => "Sub Bass"@,
        FftBand::Bass => "Bass"@,
        FftBand::LowMid => "Low Mid"@,
        FftBand::Mid => "Mid"@,
        FftBand::HighMid => "High Mid"@,
        FftBand::High => "High"@,
        FftBand::VeryHigh => "Very High"@,
        FftBand::Presence => "Presence"@,
    }
}

pub open spec fn spec_band_short_name(b: FftBand) -> Seq<char> {
    match b {
        FftBand::SubBass => "Sub"@,
        FftBand::Bass => "Bass"@,
        FftBand::LowMid => "LoMid"@,
        FftBand::Mid => "Mid"@,
        FftBand::HighMid => "HiMid"@,
        FftBand::High => "High"@,
        FftBand::VeryHigh => "VHigh"@,
        FftBand::Presence => "Pres"@,
    }
}

impl FftBand {
    pub fn name(&self) -> (n: &'static str)
        ensures
            n@ == spec_band_name(*self),
    {
        match self {
            FftBand::SubBass => "Sub Bass",
            FftBand::Bass => "Bass",
            FftBand::LowMid => "Low Mid",
            FftBand::Mid => "Mid",
            FftBand::HighMid => "High Mid",
            FftBand::High => "High",
            FftBand::VeryHigh => "Very High",
            FftBand::Presence => "Presence",
        }
    }

    pub fn short_name(&self) -> (n: &'static str)
        ensures
            n@ == spec_band_short_name(*self),
    {
        match self {
            FftBand::SubBass => "Sub",
            FftBand::Bass => "Bass",
            FftBand::LowMid => "LoMid",
            FftBand::Mid => "Mid",
            FftBand::HighMid => "HiMid",
            FftBand::High => "High",
            FftBand::VeryHigh => "VHigh",
            FftBand::Presence => "Pres",
        }
    }

    pub fn all() -> (bands: &'static [FftBand])
        ensures
            bands@ == spec_all_bands(),
    {
        &[
            FftBand::SubBass,
            FftBand::Bass,
            FftBand::LowMid,
            FftBand::Mid,
            FftBand::HighMid,
            FftBand::High,
            FftBand::VeryHigh,
            FftBand::Presence,
        ]
    }

    pub fn from_index(index: usize) -> (band: Option<Self>)
        ensures
            index < 8 ==> band == Some(spec_all_bands()[index as int]),
            index >= 8 ==> band is None,
    {
        match index {
            0 => Some(FftBand::SubBass),
            1 => Some(FftBand::Bass),
            2 => Some(FftBand::LowMid),
            3 => Some(FftBand::Mid),
            4 => Some(FftBand::HighMid),
            5 => Some(FftBand::High),
            6 => Some(FftBand::VeryHigh),
            7 => Some(FftBand::Presence),
            _ => None,
        }
    }
}

/// Every band has exactly one index: the list of all bands holds each band
/// once, and `from_index` at a band's position gives that band back.
pub proof fn lemma_band_index_bijection(b: FftBand)
    ensures
        spec_all_bands().len() == 8,
        exists|i: int| 0 <= i < 8 && #[trigger] spec_all_bands()[i] == b,
        forall|i: int, j: int|
            0 <= i < 8 && 0 <= j < 8 && #[trigger] spec_all_bands()[i] == #[trigger] spec_all_bands()[j]
                ==> i == j,
{
    match b {
        FftBand::SubBass => assert(spec_all_bands()[0] == b),
        FftBand::Bass => assert(spec_all_bands()[1] == b),
        FftBand::LowMid => assert(spec_all_bands()[2] == b),
        FftBand::Mid => assert(spec_all_bands()[3] == b),
        FftBand::HighMid => assert(spec_all_bands()[4] == b),
        FftBand::High => assert(spec_all_bands()[5] == b),
        FftBand::VeryHigh => assert(spec_all_bands()[6] == b),
        FftBand::Presence => assert(spec_all_bands()[7] == b),
    }
}

/// Video parameters that can be modulated by audio
#[derive(Debug, Clone, Copy, PartialEq, Eq, Hash, Structural)]
pub enum ModulationTarget {
    PadOpacity(usize),
    PadSpeed(usize),
    MasterOpacity,
}

/// Label of a modulation target; pads are numbered from 1 for display.
pub open spec fn spec_target_name(t: ModulationTarget) -> Seq<char> {
    match t {
        ModulationTarget::PadOpacity(i) => "Pad "@ + spec_decimal(i as nat + 1) + " Opacity"@,
        ModulationTarget::PadSpeed(i) => "Pad "@ + spec_decimal(i as nat + 1) + " Speed"@,
        ModulationTarget::MasterOpacity => "Master Opacity"@,
    }
}

/// The targets offered in the user interface: the opacity of pads 0-15,
/// then the speed of pads 0-15, then the master opacity.
pub open spec fn spec_all_target_options() -> Seq<ModulationTarget> {
    Seq::new(33, |k: int|
        if k < 16 {
            ModulationTarget::PadOpacity(k as usize)
        } else if k < 32 {
            ModulationTarget::PadSpeed((k - 16) as usize)
        } else {
            ModulationTarget::MasterOpacity
        })
}

impl ModulationTarget {
    pub fn name(&self) -> (n: String)
        requires
            self matches ModulationTarget::PadOpacity(i) ==> i < usize::MAX,
            self matches ModulationTarget::PadSpeed(i) ==> i < usize::MAX,
        ensures
            n@ == spec_target_name(*self),
    {
        match self {
            ModulationTarget::PadOpacity(i) => decimal_between("Pad ", *i + 1, " Opacity"),
            ModulationTarget::PadSpeed(i) => decimal_between("Pad ", *i + 1, " Speed"),
            ModulationTarget::MasterOpacity => String::from_str("Master Opacity"),
        }
    }

    /// All common targets for UI selection
    pub fn all_options() -> (targets: Vec<ModulationTarget>)
        ensures
            targets@ == spec_all_target_options(),
    {
        let mut targets: Vec<ModulationTarget> = Vec::new();
        for i in 0..16
            invariant
                targets@ =~= spec_all_target_options().take(i as int),
        {
            targets.push(ModulationTarget::PadOpacity(i));
        }
        for i in 0..16
            invariant
                targets@ =~= spec_all_target_options().take(16 + i),
        {
            targets.push(ModulationTarget::PadSpeed(i));
        }
        targets.push(ModulationTarget::MasterOpacity);
        proof {
            assert(targets@ =~= spec_all_target_options());
        }
        targets
    }
}


/// The part of an audio routing that the routing table keeps: its id, the
/// band it follows, the parameter it drives and whether it is on. Its depth
/// and attack/release smoothing are floating point; the application keeps
/// them under the route's id.
#[derive(Debug, Clone, Copy, PartialEq, Eq, Structural)]
pub struct AudioRoute {
    pub id: usize,
    pub band: FftBand,
    pub target: ModulationTarget,
    pub enabled: bool,
}

impl AudioRoute {
    /// A new route is enabled.
    pub fn new(id: usize, band: FftBand, target: ModulationTarget) -> (r: Self)
        ensures
            r == (AudioRoute { id, band, target, enabled: true }),
    {
        AudioRoute { id, band, target, enabled: true }
    }
}

/// Manages all audio-to-parameter routings: at most `max_routes` of them,
/// each under an id handed out once.
pub struct RoutingMatrix {
    routes: Vec<AudioRoute>,
    next_id: usize,
    max_routes: usize,
}

/// The routes in order, the next id to hand out and the limit.
pub struct RoutingMatrixView {
    pub routes: Seq<AudioRoute>,
    pub next_id: nat,
    pub max_routes: nat,
}

impl View for RoutingMatrix {
    type V = RoutingMatrixView;

    closed spec fn view(&self) -> RoutingMatrixView {
        RoutingMatrixView {
            routes: self.routes@,
            next_id: self.next_id as nat,
            max_routes: self.max_routes as nat,
        }
    }
}

/// Every route id is below `bound`.
pub open spec fn spec_ids_below(routes: Seq<AudioRoute>, bound: nat) -> bool {
    forall|i: int| 0 <= i < routes.len() ==> (#[trigger] routes[i]).id < bound
}

/// No two routes share an id.
pub open spec fn spec_ids_distinct(routes: Seq<AudioRoute>) -> bool {
    forall|i: int, j: int|
        0 <= i < routes.len() && 0 <= j < routes.len() && i != j ==> #[trigger] routes[i].id
            != #[trigger] routes[j].id
}

/// Routes other than those under `id`.
pub open spec fn id_differs(id: usize) -> spec_fn(AudioRoute) -> bool {
    |r: AudioRoute| r.id != id
}

/// Index of the first route under `id`, if there is one.
pub open spec fn spec_first_with_id(routes: Seq<AudioRoute>, id: usize, i: int) -> bool {
    &&& 0 <= i < routes.len()
    &&& routes[i].id == id
    &&& forall|j: int| 0 <= j < i ==> (#[trigger] routes[j]).id != id
}

impl RoutingMatrixView {
    /// Route ids are distinct and below the next id to hand out (which
    /// fits in a `usize`), and the table holds no more routes than its limit.
    pub open spec fn wf(self) -> bool {
        &&& self.next_id <= usize::MAX
        &&& spec_ids_below(self.routes, self.next_id)
        &&& spec_ids_distinct(self.routes)
        &&& self.routes.len() <= self.max_routes
    }

    /// The table after adding a route from `band` to `target`, when there is
    /// room: the new route, enabled, takes the next id.
    pub open spec fn added(self, band: FftBand, target: ModulationTarget) -> RoutingMatrixView {
        RoutingMatrixView {
            routes: self.routes.push(
                AudioRoute { id: self.next_id as usize, band, target, enabled: true },
            ),
            next_id: self.next_id + 1,
            max_routes: self.max_routes,
        }
    }

    /// The table after removing the routes under `id`.
    pub open spec fn removed(self, id: usize) -> RoutingMatrixView {
        RoutingMatrixView {
            routes: self.routes.filter(id_differs(id)),
            next_id: self.next_id,
            max_routes: self.max_routes,
        }
    }
}

/// Filtering keeps the routes' ids below a bound and distinct.
proof fn lemma_filter_keeps_ids(routes: Seq<AudioRoute>, bound: nat, p: spec_fn(AudioRoute) -> bool)
    requires
        spec_ids_below(routes, bound),
        spec_ids_distinct(routes),
    ensures
        spec_ids_below(routes.filter(p), bound),
        spec_ids_distinct(routes.filter(p)),
        routes.filter(p).len() <= routes.len(),
    decreases routes.len(),
{
    broadcast use Seq::lemma_filter_len;
    if routes.len() > 0 {
        let init = routes.drop_last();
        let last = routes.last();
        assert(routes =~= init.push(last));
        assert(spec_ids_below(init, bound));
        assert(spec_ids_distinct(init)) by {
            assert forall|i: int, j: int|
                0 <= i < init.len() && 0 <= j < init.len() && i != j implies #[trigger] init[i].id
                != #[trigger] init[j].id by {
                assert(routes[i] == init[i] && routes[j] == init[j]);
            }
        }
        lemma_filter_keeps_ids(init, bound, p);
        init.lemma_filter_push(last, p);
        let f = init.filter(p);
        if p(last) {
            assert forall|i: int| 0 <= i < f.len() implies (#[trigger] f[i]).id != last.id by {
                #[allow(deprecated)]
                init.filter_lemma(p);
                assert(f.contains(f[i])) by {
                    assert(f[i] == f[i]);
                }
                assert(init.filter(p)[i] == f[i]);
                lemma_filter_elem_in(init, p, i);
                let k = choose|k: int| 0 <= k < init.len() && init[k] == f[i];
                assert(routes[k] == init[k]);
                assert(routes[routes.len() - 1] == last);
            }
            let g = f.push(last);
            assert(spec_ids_distinct(g)) by {
                assert forall|i: int, j: int|
                    0 <= i < g.len() && 0 <= j < g.len() && i != j implies #[trigger] g[i].id
                    != #[trigger] g[j].id by {
                    if i < f.len() && j < f.len() {
                        assert(g[i] == f[i] && g[j] == f[j]);
                    } else if i < f.len() {
                        assert(g[i] == f[i]);
                    } else if j < f.len() {
                        assert(g[j] == f[j]);
                    }
                }
            }
            assert(spec_ids_below(g, bound)) by {
                assert forall|i: int| 0 <= i < g.len() implies (#[trigger] g[i]).id < bound by {
                    if i < f.len() {
                        assert(g[i] == f[i]);
                    }
                }
            }
        }
    }
}

/// Each route that filtering keeps comes from the routes filtered.
proof fn lemma_filter_elem_in(s: Seq<AudioRoute>, p: spec_fn(AudioRoute) -> bool, i: int)
    requires
        0 <= i < s.filter(p).len(),
    ensures
        exists|k: int| 0 <= k < s.len() && s[k] == s.filter(p)[i],
    decreases s.len(),
{
    broadcast use Seq::lemma_filter_len;
    if s.len() > 0 {
        let init = s.drop_last();
        assert(s =~= init.push(s.last()));
        init.lemma_filter_push(s.last(), p);
        if i < init.filter(p).len() {
            lemma_filter_elem_in(init, p, i);
            let k = choose|k: int| 0 <= k < init.len() && init[k] == init.filter(p)[i];
            assert(s[k] == init[k]);
        } else {
            assert(s[s.len() - 1] == s.filter(p)[i]);
        }
    }
}

/// Filtering by a predicate that every element meets changes nothing.
proof fn lemma_filter_all_kept(s: Seq<AudioRoute>, p: spec_fn(AudioRoute) -> bool)
    requires
        forall|i: int| 0 <= i < s.len() ==> p(#[trigger] s[i]),
    ensures
        s.filter(p) == s,
    decreases s.len(),
{
    if s.len() > 0 {
        let init = s.drop_last();
        assert(s =~= init.push(s.last()));
        assert forall|i: int| 0 <= i < init.len() implies p(#[trigger] init[i]) by {
            assert(s[i] == init[i]);
        }
        lemma_filter_all_kept(init, p);
        init.lemma_filter_push(s.last(), p);
        assert(p(s[s.len() - 1]));
    } else {
        reveal(Seq::filter);
    }
}

/// Removing the route that was just added gives back the routes as they were.
pub proof fn lemma_remove_undoes_add(m: RoutingMatrixView, band: FftBand, target: ModulationTarget)
    requires
        m.wf(),
    ensures
        m.added(band, target).removed(m.next_id as usize).routes == m.routes,
{
    let id = m.next_id as usize;
    let r = AudioRoute { id, band, target, enabled: true };
    assert forall|i: int| 0 <= i < m.routes.len() implies id_differs(id)(#[trigger] m.routes[i]) by {
        assert(m.routes[i].id < m.next_id);
    }
    lemma_filter_all_kept(m.routes, id_differs(id));
    m.routes.lemma_filter_push(r, id_differs(id));
}

/// Removing a route keeps the table well formed and leaves no route under
/// the id removed.
pub proof fn lemma_removed_wf(m: RoutingMatrixView, id: usize)
    requires
        m.wf(),
    ensures
        m.removed(id).wf(),
        forall|i: int| 0 <= i < m.removed(id).routes.len() ==> (#[trigger] m.removed(id).routes[i]).id != id,
{
    broadcast use Seq::lemma_filter_pred;
    lemma_filter_keeps_ids(m.routes, m.next_id, id_differs(id));
}

impl RoutingMatrix {
    pub fn new(max_routes: usize) -> (m: Self)
        ensures
            m@.routes == Seq::<AudioRoute>::empty(),
            m@.next_id == 0,
            m@.max_routes == max_routes,
            m@.wf(),
    {
        RoutingMatrix { routes: Vec::new(), next_id: 0, max_routes }
    }

    /// Add a route from `band` to `target` under a fresh id, unless the
    /// table is full.
    pub fn add_route(&mut self, band: FftBand, target: ModulationTarget) -> (id: Option<usize>)
        requires
            old(self)@.routes.len() < old(self)@.max_routes ==> old(self)@.next_id < usize::MAX,
        ensures
            old(self)@.routes.len() >= old(self)@.max_routes ==> id is None && final(self)@
                == old(self)@,
            old(self)@.routes.len() < old(self)@.max_routes ==> id == Some(
                old(self)@.next_id as usize,
            ) && final(self)@ == old(self)@.added(band, target),
            old(self)@.wf() ==> final(self)@.wf(),
    {
        if self.routes.len() >= self.max_routes {
            return None;
        }
        let id = self.next_id;
        self.next_id = self.next_id + 1;
        self.routes.push(AudioRoute::new(id, band, target));
        proof {
            let ghost o = old(self)@;
            if o.wf() {
                assert(spec_ids_below(self@.routes, self@.next_id)) by {
                    assert forall|i: int| 0 <= i < self@.routes.len() implies (
                    #[trigger] self@.routes[i]).id < self@.next_id by {
                        if i < o.routes.len() {
                            assert(self@.routes[i] == o.routes[i]);
                        }
                    }
                }
                assert(spec_ids_distinct(self@.routes)) by {
                    assert forall|i: int, j: int|
                        0 <= i < self@.routes.len() && 0 <= j < self@.routes.len() && i != j implies
                        #[trigger] self@.routes[i].id != #[trigger] self@.routes[j].id by {
                        if i < o.routes.len() {
                            assert(self@.routes[i] == o.routes[i]);
                            assert(o.routes[i].id < o.next_id);
                        }
                        if j < o.routes.len() {
                            assert(self@.routes[j] == o.routes[j]);
                            assert(o.routes[j].id < o.next_id);
                        }
                    }
                }
            }
        }
        Some(id)
    }

    /// Remove the route under `id` (nothing happens if there is none).
    pub fn remove_route(&mut self, id: usize)
        ensures
            final(self)@ == old(self)@.removed(id),
            old(self)@.wf() ==> final(self)@.wf(),
    {
        let mut kept: Vec<AudioRoute> = Vec::new();
        let n = self.routes.len();
        for i in 0..n
            invariant
                n == self.routes@.len(),
                self@ == old(self)@,
                kept@ == self.routes@.take(i as int).filter(id_differs(id)),
        {
            proof {
                assert(self.routes@.take(i + 1) =~= self.routes@.take(i as int).push(self.routes@[i as int]));
                self.routes@.take(i as int).lemma_filter_push(self.routes@[i as int], id_differs(id));
            }
            let r = self.routes[i];
            if r.id != id {
                kept.push(r);
            }
        }
        proof {
            assert(self.routes@.take(n as int) =~= self.routes@);
            if old(self)@.wf() {
                lemma_removed_wf(old(self)@, id);
            }
        }
        self.routes = kept;
    }

    /// The first route under `id`, to change it.
    pub fn get_route_mut(&mut self, id: usize) -> (route: Option<&mut AudioRoute>)
        ensures
            route is None <==> forall|i: int|
                0 <= i < old(self)@.routes.len() ==> (#[trigger] old(self)@.routes[i]).id != id,
            route is None ==> final(self)@ == old(self)@,
            route matches Some(r) ==> exists|i: int|
                spec_first_with_id(old(self)@.routes, id, i) && *r == old(self)@.routes[i]
                    && final(self)@.routes == old(self)@.routes.update(i, *final(r)),
            route matches Some(r) ==> (final(r).id == id && old(self)@.wf() ==> final(self)@.wf()),
            final(self)@.next_id == old(self)@.next_id,
            final(self)@.max_routes == old(self)@.max_routes,
    {
        let n = self.routes.len();
        let mut i: usize = 0;
        while i < n
            invariant
                n == self.routes@.len(),
                i <= n,
                self@ == old(self)@,
                forall|j: int| 0 <= j < i ==> (#[trigger] self.routes@[j]).id != id,
            decreases n - i,
        {
            if self.routes[i].id == id {
                proof {
                    assert(spec_first_with_id(self@.routes, id, i as int));
                }
                return Some(&mut self.routes[i]);
            }
            i = i + 1;
        }
        None
    }

    /// The routes, in the order they were added.
    pub fn routes(&self) -> (routes: &[AudioRoute])
        ensures
            routes@ == self@.routes,
    {
        self.routes.as_slice()
    }

    /// Remove every route (ids are not handed out again).
    pub fn clear(&mut self)
        ensures
            final(self)@.routes == Seq::<AudioRoute>::empty(),
            final(self)@.next_id == old(self)@.next_id,
            final(self)@.max_routes == old(self)@.max_routes,
            final(self)@.wf(),
    {
        self.routes.clear();
    }

    pub fn len(&self) -> (n: usize)
        ensures
            n == self@.routes.len(),
    {
        self.routes.len()
    }

    pub fn is_empty(&self) -> (b: bool)
        ensures
            b == (self@.routes.len() == 0),
    {
        self.routes.len() == 0
    }

    pub fn max_routes(&self) -> (n: usize)
        ensures
            n == self@.max_routes,
    {
        self.max_routes
    }

    /// Whether another route fits.
    pub fn can_add_route(&self) -> (b: bool)
        ensures
            b == (self@.routes.len() < self@.max_routes),
    {
        self.routes.len() < self.max_routes
    }
}

impl Default for RoutingMatrix {
    fn default() -> (m: Self)
        ensures
            m@.routes == Seq::<AudioRoute>::empty(),
            m@.next_id == 0,
            m@.max_routes == 8,
            m@.wf(),
    {
        Self::new(8)
    }
}

} // verus!
