use vstd::prelude::*;

use crate::event::{Event, EventView, Part};

verus! {

/// Status of a final-state particle, outgoing from its vertex.
pub const OUTGOING_STATUS: i32 = 1;

/// Tag of the one vertex that a converted event has. Any value other than
/// the particles' own "no vertex" tag (0) makes its particles count as
/// outgoing from it.
pub const VERTEX_BARCODE: i32 = 1;

/// Unit of energy and momentum.
#[derive(Copy, Clone, Debug, Eq, PartialEq, Hash)]
pub enum EnergyUnit {
    MEV,
    GEV,
}

/// Unit of length.
#[derive(Copy, Clone, Debug, Eq, PartialEq, Hash)]
pub enum LengthUnit {
    MM,
    CM,
}

/// A particle of an interchange record: its type, its four-momentum at the
/// precision of an [`Event`] (`u32` bit patterns), and its status. Its mass
/// is 0 and its angles follow from its momentum.
#[derive(Copy, Clone, Debug, Eq, PartialEq)]
pub struct Particle {
    pub id: i32,
    pub energy: u32,
    pub px: u32,
    pub py: u32,
    pub pz: u32,
    pub status: i32,
}

/// A vertex of an interchange record, with the particles that leave it.
#[derive(Clone, Debug, PartialEq)]
pub struct Vertex {
    pub barcode: i32,
    pub particles_out: Vec<Particle>,
}

/// Parton distribution data: the two incoming partons, their momentum
/// fractions and the factorisation scale.
#[derive(Copy, Clone, Debug, Eq, PartialEq)]
pub struct PdfInfo {
    pub parton_id: [i32; 2],
    pub x: [u64; 2],
    pub scale: u64,
}

/// The part of an interchange event record that an [`Event`] maps to.
/// Double-precision values are `u64` bit patterns.
#[derive(Clone, Debug, PartialEq)]
pub struct InterchangeEvent {
    pub number: i32,
    pub scale: u64,
    pub alpha_qcd: u64,
    pub weights: Vec<u64>,
    /// Names of the first weights, one for each.
    pub weight_names: Vec<String>,
    pub vertices: Vec<Vertex>,
    pub pdf_info: PdfInfo,
    pub energy_unit: EnergyUnit,
    pub length_unit: LengthUnit,
}

pub open spec fn name_main() -> Seq<char> {
    Seq::empty()
}

pub open spec fn name_alt() -> Seq<char> {
    seq!['2']
}

pub open spec fn name_me() -> Seq<char> {
    seq!['M', 'E']
}

pub open spec fn name_me_alt() -> Seq<char> {
    seq!['M', 'E', '2']
}

/// The names of the four canonical weights, in the order of the weights.
pub open spec fn canonical_names() -> Seq<Seq<char>> {
    seq![name_main(), name_alt(), name_me(), name_me_alt()]
}

/// The outgoing particle that stands for the `i`-th particle of `e`.
pub open spec fn particle_of(e: EventView, i: int) -> Particle {
    Particle {
        id: e.pdg_code[i],
        energy: e.energy[i],
        px: e.px[i],
        py: e.py[i],
        pz: e.pz[i],
        status: OUTGOING_STATUS,
    }
}

/// The outgoing particles that stand for the particles of `e`, in order.
pub open spec fn particles_of(e: EventView) -> Seq<Particle> {
    Seq::new(e.nparticle as nat, |i: int| particle_of(e, i))
}

/// The weight names of a record, as character sequences.
pub open spec fn names_view(names: Seq<String>) -> Seq<Seq<char>> {
    names.map_values(|s: String| s@)
}

/// `h` is the interchange record of `e`: one vertex tagged
/// [`VERTEX_BARCODE`] with an outgoing particle for each particle of `e`,
/// the four canonical weights under their names followed by the user
/// weights without names, the parton data of `e`, units GeV and mm.
pub open spec fn is_interchange_of(h: &InterchangeEvent, e: EventView) -> bool {
    &&& h.number == e.id
    &&& h.scale == e.ren_scale
    &&& h.alpha_qcd == 0
    &&& h.weights@ == seq![e.weight, e.weight2, e.me_weight, e.me_weight2] + e.user_weights
    &&& names_view(h.weight_names@) == canonical_names()
    &&& h.vertices@.len() == 1
    &&& h.vertices@[0].barcode == VERTEX_BARCODE
    &&& h.vertices@[0].particles_out@ == particles_of(e)
    &&& h.pdf_info.parton_id@ == seq![e.id1, e.id2]
    &&& h.pdf_info.x@ == seq![e.x1, e.x2]
    &&& h.pdf_info.scale == e.fac_scale
    &&& h.energy_unit == EnergyUnit::GEV
    &&& h.length_unit == LengthUnit::MM
}

/// The interchange record of `e`. Particles past the first `nparticle` of
/// each array are not part of the event.
pub fn to_interchange(e: &Event) -> (h: InterchangeEvent)
    requires
        e@.particles_readable(),
    ensures
        is_interchange_of(&h, e@),
{
    let n = e.nparticle as usize;
    let mut particles: Vec<Particle> = Vec::with_capacity(n);
    let mut i: usize = 0;
    while i < n
        invariant
            n == e.nparticle,
            e@.particles_readable(),
            i <= n,
            particles@ =~= Seq::new(i as nat, |k: int| particle_of(e@, k)),
        decreases n - i,
    {
        particles.push(
            Particle {
                id: e.pdg_code[i],
                energy: e.energy[i],
                px: e.px[i],
                py: e.py[i],
                pz: e.pz[i],
                status: OUTGOING_STATUS,
            },
        );
        i += 1;
    }
    let mut weights: Vec<u64> = vec![e.weight, e.weight2, e.me_weight, e.me_weight2];
    let mut j: usize = 0;
    while j < e.user_weights.len()
        invariant
            j <= e.user_weights@.len(),
            weights@ =~= seq![e.weight, e.weight2, e.me_weight, e.me_weight2]
                + e.user_weights@.subrange(0, j as int),
        decreases e.user_weights@.len() - j,
    {
        weights.push(e.user_weights[j]);
        j += 1;
    }
    let n0 = String::from_str("");
    let n1 = String::from_str("2");
    let n2 = String::from_str("ME");
    let n3 = String::from_str("ME2");
    proof {
        reveal_strlit("");
        reveal_strlit("2");
        reveal_strlit("ME");
        reveal_strlit("ME2");
        assert(n0@ =~= name_main());
        assert(n1@ =~= name_alt());
        assert(n2@ =~= name_me());
        assert(n3@ =~= name_me_alt());
    }
    let weight_names: Vec<String> = vec![n0, n1, n2, n3];
    proof {
        assert(names_view(weight_names@) =~= canonical_names());
        assert(e@.user_weights.subrange(0, j as int) =~= e@.user_weights);
    }
    let vertices: Vec<Vertex> = vec![Vertex { barcode: VERTEX_BARCODE, particles_out: particles }];
    InterchangeEvent {
        number: e.id,
        scale: e.ren_scale,
        alpha_qcd: 0,
        weights,
        weight_names,
        vertices,
        pdf_info: PdfInfo { parton_id: [e.id1, e.id2], x: [e.x1, e.x2], scale: e.fac_scale },
        energy_unit: EnergyUnit::GEV,
        length_unit: LengthUnit::MM,
    }
}

/// The outgoing particles among `ps`, in order.
pub open spec fn outgoing_in(ps: Seq<Particle>) -> Seq<Particle>
    decreases ps.len(),
{
    if ps.len() == 0 {
        Seq::empty()
    } else {
        let rest = outgoing_in(ps.drop_last());
        if ps.last().status == OUTGOING_STATUS {
            rest.push(ps.last())
        } else {
            rest
        }
    }
}

/// The outgoing particles of all vertices of `vs`, vertex by vertex, in
/// order.
pub open spec fn outgoing_of(vs: Seq<Vertex>) -> Seq<Particle>
    decreases vs.len(),
{
    if vs.len() == 0 {
        Seq::empty()
    } else {
        outgoing_of(vs.drop_last()) + outgoing_in(vs.last().particles_out@)
    }
}

/// Looking up and removing the first weight named `name`: its value (0 if
/// no weight has that name), and the weights and names left.
pub open spec fn take_named(ws: Seq<u64>, ns: Seq<Seq<char>>, name: Seq<char>) -> (
    u64,
    Seq<u64>,
    Seq<Seq<char>>,
) {
    match ns.index_of_first(name) {
        Some(i) => (ws[i], ws.remove(i), ns.remove(i)),
        None => (0, ws, ns),
    }
}

/// The canonical weights taken from named weights, and the user weights
/// left over.
pub struct WeightSplit {
    pub weight: u64,
    pub weight2: u64,
    pub me_weight: u64,
    pub me_weight2: u64,
    pub user_weights: Seq<u64>,
}

/// Weights taken apart by name, in this order: "ME2", "ME", "2", each
/// removed once found; then the first weight left, if any, is the main
/// weight; what remains are the user weights. A weight that is missing is 0.
pub open spec fn split_weights(ws: Seq<u64>, ns: Seq<Seq<char>>) -> WeightSplit {
    let (me2, ws1, ns1) = take_named(ws, ns, name_me_alt());
    let (me, ws2, ns2) = take_named(ws1, ns1, name_me());
    let (w2, ws3, ns3) = take_named(ws2, ns2, name_alt());
    WeightSplit {
        weight: if ws3.len() > 0 { ws3[0] } else { 0 },
        weight2: w2,
        me_weight: me,
        me_weight2: me2,
        user_weights: if ws3.len() > 0 { ws3.drop_first() } else { ws3 },
    }
}

/// The event that an interchange record maps to: its outgoing particles,
/// its weights taken apart by name, its parton data and scales. Momentum
/// fractions `x1p`, `x2p`, the coupling power and the class have no place
/// in the record: they are 0 and Born.
pub open spec fn event_of(h: &InterchangeEvent) -> EventView {
    let ps = outgoing_of(h.vertices@);
    let w = split_weights(h.weights@, names_view(h.weight_names@));
    EventView {
        id: h.number,
        nparticle: ps.len() as i32,
        px: ps.map_values(|p: Particle| p.px),
        py: ps.map_values(|p: Particle| p.py),
        pz: ps.map_values(|p: Particle| p.pz),
        energy: ps.map_values(|p: Particle| p.energy),
        alphas: h.alpha_qcd,
        pdg_code: ps.map_values(|p: Particle| p.id),
        weight: w.weight,
        weight2: w.weight2,
        me_weight: w.me_weight,
        me_weight2: w.me_weight2,
        x1: h.pdf_info.x@[0],
        x2: h.pdf_info.x@[1],
        x1p: 0,
        x2p: 0,
        id1: h.pdf_info.parton_id@[0],
        id2: h.pdf_info.parton_id@[1],
        fac_scale: h.pdf_info.scale,
        ren_scale: h.scale,
        user_weights: w.user_weights,
        part: Part::B,
        alphas_power: 0,
    }
}

/// An interchange record that maps to an event: no more names than
/// weights, and a count of outgoing particles that fits in an `i32`.
pub open spec fn convertible(h: &InterchangeEvent) -> bool {
    &&& h.weight_names@.len() <= h.weights@.len()
    &&& outgoing_of(h.vertices@).len() <= i32::MAX
}

/// The index of the first name equal to `name`.
fn position(names: &Vec<String>, name: &String) -> (r: Option<usize>)
    ensures
        match names_view(names@).index_of_first(name@) {
            Some(i) => r == Some(i as usize),
            None => r is None,
        },
{
    let ghost nv = names_view(names@);
    let mut i: usize = 0;
    while i < names.len()
        invariant
            i <= names@.len(),
            nv == names_view(names@),
            forall|j: int| 0 <= j < i ==> nv[j] != name@,
        decreases names@.len() - i,
    {
        if names[i] == *name {
            proof {
                nv.index_of_first_ensures(name@);
                assert(nv[i as int] == name@);
                assert(nv.contains(name@));
            }
            return Some(i);
        }
        i += 1;
    }
    proof {
        nv.index_of_first_ensures(name@);
        assert(!nv.contains(name@));
    }
    None
}

/// Removes the first weight named `name`, with its name, and returns its
/// value; 0 if there is none.
fn take_weight(weights: &mut Vec<u64>, names: &mut Vec<String>, name: &str) -> (r: u64)
    requires
        old(names)@.len() <= old(weights)@.len(),
    ensures
        final(names)@.len() <= final(weights)@.len(),
        r == take_named(old(weights)@, names_view(old(names)@), name@).0,
        final(weights)@ == take_named(old(weights)@, names_view(old(names)@), name@).1,
        names_view(final(names)@) == take_named(old(weights)@, names_view(old(names)@), name@).2,
{
    let needle = String::from_str(name);
    let ghost nv = names_view(names@);
    let ghost ws = weights@;
    proof {
        nv.index_of_first_ensures(needle@);
    }
    match position(names, &needle) {
        Some(i) => {
            names.remove(i);
            proof {
                assert(names_view(names@) =~= nv.remove(i as int));
            }
            let w = weights.remove(i);
            assert(take_named(ws, nv, name@) == (w, weights@, names_view(names@)));
            w
        },
        None => {
            assert(take_named(ws, nv, name@) == (0u64, weights@, names_view(names@)));
            0
        },
    }
}

/// The outgoing particles of all vertices of `vs`, in order.
fn collect_outgoing(vs: &Vec<Vertex>) -> (r: Vec<Particle>)
    ensures
        r@ == outgoing_of(vs@),
{
    let mut out: Vec<Particle> = Vec::new();
    let mut i: usize = 0;
    while i < vs.len()
        invariant
            i <= vs@.len(),
            out@ == outgoing_of(vs@.subrange(0, i as int)),
        decreases vs@.len() - i,
    {
        let ps = &vs[i].particles_out;
        let mut j: usize = 0;
        while j < ps.len()
            invariant
                i < vs@.len(),
                ps@ == vs@[i as int].particles_out@,
                j <= ps@.len(),
                out@ == outgoing_of(vs@.subrange(0, i as int)) + outgoing_in(
                    ps@.subrange(0, j as int),
                ),
            decreases ps@.len() - j,
        {
            assert(ps@.subrange(0, j + 1).drop_last() =~= ps@.subrange(0, j as int));
            if ps[j].status == OUTGOING_STATUS {
                out.push(ps[j]);
            }
            j += 1;
        }
        assert(vs@.subrange(0, i + 1).drop_last() =~= vs@.subrange(0, i as int));
        assert(ps@.subrange(0, j as int) =~= ps@);
        i += 1;
    }
    assert(vs@.subrange(0, i as int) =~= vs@);
    out
}

/// The event that an interchange record maps to.
pub fn from_interchange(h: &InterchangeEvent) -> (e: Event)
    requires
        convertible(h),
    ensures
        e@ == event_of(h),
{
    let out = collect_outgoing(&h.vertices);
    let mut px: Vec<u32> = Vec::new();
    let mut py: Vec<u32> = Vec::new();
    let mut pz: Vec<u32> = Vec::new();
    let mut energy: Vec<u32> = Vec::new();
    let mut pdg_code: Vec<i32> = Vec::new();
    let mut k: usize = 0;
    while k < out.len()
        invariant
            k <= out@.len(),
            px@ =~= out@.subrange(0, k as int).map_values(|p: Particle| p.px),
            py@ =~= out@.subrange(0, k as int).map_values(|p: Particle| p.py),
            pz@ =~= out@.subrange(0, k as int).map_values(|p: Particle| p.pz),
            energy@ =~= out@.subrange(0, k as int).map_values(|p: Particle| p.energy),
            pdg_code@ =~= out@.subrange(0, k as int).map_values(|p: Particle| p.id),
        decreases out@.len() - k,
    {
        px.push(out[k].px);
        py.push(out[k].py);
        pz.push(out[k].pz);
        energy.push(out[k].energy);
        pdg_code.push(out[k].id);
        k += 1;
    }
    assert(out@.subrange(0, k as int) =~= out@);
    let mut names = h.weight_names.clone();
    let mut weights = h.weights.clone();
    proof {
        assert(names@ =~= h.weight_names@);
    }
    let me_weight2 = take_weight(&mut weights, &mut names, "ME2");
    let me_weight = take_weight(&mut weights, &mut names, "ME");
    let weight2 = take_weight(&mut weights, &mut names, "2");
    let weight = if weights.len() > 0 {
        weights.remove(0)
    } else {
        0
    };
    proof {
        reveal_strlit("ME2");
        reveal_strlit("ME");
        reveal_strlit("2");
        assert("ME2"@ =~= name_me_alt());
        assert("ME"@ =~= name_me());
        assert("2"@ =~= name_alt());
    }
    Event {
        id: h.number,
        nparticle: out.len() as i32,
        px,
        py,
        pz,
        energy,
        alphas: h.alpha_qcd,
        pdg_code,
        weight,
        weight2,
        me_weight,
        me_weight2,
        x1: h.pdf_info.x[0],
        x2: h.pdf_info.x[1],
        x1p: 0,
        x2p: 0,
        id1: h.pdf_info.parton_id[0],
        id2: h.pdf_info.parton_id[1],
        fac_scale: h.pdf_info.scale,
        ren_scale: h.scale,
        user_weights: weights,
        part: Part::B,
        alphas_power: 0,
    }
}

/// `e` with what an interchange record cannot hold set as a conversion back
/// sets it: the coupling and its power, `x1p`, `x2p` and the class.
pub open spec fn interchange_image(e: EventView) -> EventView {
    EventView { alphas: 0, x1p: 0, x2p: 0, part: Part::B, alphas_power: 0, ..e }
}

proof fn lemma_first_at(ns: Seq<Seq<char>>, name: Seq<char>, i: int)
    requires
        0 <= i < ns.len(),
        ns[i] == name,
        forall|j: int| 0 <= j < i ==> ns[j] != name,
    ensures
        ns.index_of_first(name) == Some(i),
{
    ns.index_of_first_ensures(name);
    assert(ns.contains(name));
}

proof fn lemma_all_outgoing(ps: Seq<Particle>)
    requires
        forall|i: int| 0 <= i < ps.len() ==> (#[trigger] ps[i]).status == OUTGOING_STATUS,
    ensures
        outgoing_in(ps) == ps,
    decreases ps.len(),
{
    if ps.len() > 0 {
        lemma_all_outgoing(ps.drop_last());
        assert(ps.drop_last().push(ps.last()) =~= ps);
    }
}

/// The canonical weights under their names, followed by unnamed user
/// weights, split back into the same canonical weights and user weights.
pub proof fn lemma_split_canonical(w: u64, w2: u64, me: u64, me2: u64, user: Seq<u64>)
    ensures
        split_weights(seq![w, w2, me, me2] + user, canonical_names()) == (WeightSplit {
            weight: w,
            weight2: w2,
            me_weight: me,
            me_weight2: me2,
            user_weights: user,
        }),
{
    let ws = seq![w, w2, me, me2] + user;
    let ns = canonical_names();
    assert(name_main().len() == 0);
    assert(name_alt().len() == 1);
    assert(name_me().len() == 2);
    assert(name_me_alt().len() == 3);
    assert(ns[0] != name_me_alt() && ns[1] != name_me_alt() && ns[2] != name_me_alt());
    lemma_first_at(ns, name_me_alt(), 3);
    let ws1 = ws.remove(3);
    let ns1 = ns.remove(3);
    assert(ws1 =~= seq![w, w2, me] + user);
    assert(ns1 =~= seq![name_main(), name_alt(), name_me()]);
    assert(ns1[0] != name_me() && ns1[1] != name_me());
    lemma_first_at(ns1, name_me(), 2);
    let ws2 = ws1.remove(2);
    let ns2 = ns1.remove(2);
    assert(ws2 =~= seq![w, w2] + user);
    assert(ns2 =~= seq![name_main(), name_alt()]);
    assert(ns2[0] != name_alt());
    lemma_first_at(ns2, name_alt(), 1);
    let ws3 = ws2.remove(1);
    assert(ws3 =~= seq![w] + user);
    assert(ws3.drop_first() =~= user);
}

/// Converting an event to an interchange record and back gives the event
/// again, with the fields that the record cannot hold reset: every
/// particle, weight, parton datum and scale comes back in its place.
pub proof fn lemma_interchange_round_trip(e: EventView, h: InterchangeEvent)
    requires
        e.well_formed(),
        is_interchange_of(&h, e),
    ensures
        convertible(&h),
        event_of(&h) == interchange_image(e),
{
    let vs = h.vertices@;
    let ps = particles_of(e);
    assert(vs.drop_last().len() == 0);
    assert(outgoing_of(vs.drop_last()) == Seq::<Particle>::empty());
    lemma_all_outgoing(ps);
    assert(outgoing_of(vs) =~= ps);
    lemma_split_canonical(e.weight, e.weight2, e.me_weight, e.me_weight2, e.user_weights);
    assert(ps.map_values(|p: Particle| p.px) =~= e.px);
    assert(ps.map_values(|p: Particle| p.py) =~= e.py);
    assert(ps.map_values(|p: Particle| p.pz) =~= e.pz);
    assert(ps.map_values(|p: Particle| p.energy) =~= e.energy);
    assert(ps.map_values(|p: Particle| p.id) =~= e.pdg_code);
    assert(event_of(&h) =~= interchange_image(e));
}

/// Two round trips through interchange records give what one gives: the
/// fields lost on the first pass stay 0, and nothing else changes.
pub proof fn lemma_interchange_round_trip_stable(
    e: EventView,
    h1: InterchangeEvent,
    h2: InterchangeEvent,
)
    requires
        e.well_formed(),
        is_interchange_of(&h1, e),
        is_interchange_of(&h2, event_of(&h1)),
    ensures
        convertible(&h2),
        event_of(&h2) == event_of(&h1),
        event_of(&h1).x1p == 0,
        event_of(&h1).x2p == 0,
{
    lemma_interchange_round_trip(e, h1);
    lemma_interchange_round_trip(event_of(&h1), h2);
    assert(interchange_image(interchange_image(e)) =~= interchange_image(e));
}

} // verus!
