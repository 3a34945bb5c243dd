use ntuple::conv::{
    from_interchange, to_interchange, EnergyUnit, InterchangeEvent, LengthUnit, Particle, PdfInfo,
    Vertex, OUTGOING_STATUS, VERTEX_BARCODE,
};
use ntuple::event::Part;
use ntuple::Event;

fn f(x: f32) -> u32 {
    x.to_bits()
}

fn d(x: f64) -> u64 {
    x.to_bits()
}

fn weighted_event() -> Event {
    let mut e = Event::default();
    e.id = 12;
    e.nparticle = 2;
    e.px = vec![f(1.0), f(-2.0)];
    e.py = vec![f(0.5), f(3.0)];
    e.pz = vec![f(7.0), f(-7.5)];
    e.energy = vec![f(9.0), f(11.0)];
    e.pdg_code = vec![21, -11];
    e.weight = d(1.0);
    e.weight2 = d(2.0);
    e.me_weight = d(3.0);
    e.me_weight2 = d(4.0);
    e.user_weights = vec![d(5.0)];
    e.x1 = d(0.25);
    e.x2 = d(0.5);
    e.x1p = d(0.125);
    e.x2p = d(0.0625);
    e.id1 = 2;
    e.id2 = -1;
    e.fac_scale = d(91.0);
    e.ren_scale = d(45.0);
    e.alphas = d(0.118);
    e.alphas_power = 2;
    e.part = Part::V;
    e
}

fn names(ns: &[&str]) -> Vec<String> {
    ns.iter().map(|s| s.to_string()).collect()
}

fn particle(id: i32, px: f32, status: i32) -> Particle {
    Particle { id, energy: f(px + 100.0), px: f(px), py: f(0.0), pz: f(-px), status }
}

fn record(weights: Vec<u64>, weight_names: Vec<String>, vertices: Vec<Vertex>) -> InterchangeEvent {
    InterchangeEvent {
        number: 3,
        scale: d(10.0),
        alpha_qcd: d(0.2),
        weights,
        weight_names,
        vertices,
        pdf_info: PdfInfo { parton_id: [1, 2], x: [d(0.3), d(0.4)], scale: d(20.0) },
        energy_unit: EnergyUnit::GEV,
        length_unit: LengthUnit::MM,
    }
}

#[test]
fn weights_to_named_slots_and_back() {
    let e = weighted_event();
    let h = to_interchange(&e);
    assert_eq!(h.weights, vec![d(1.0), d(2.0), d(3.0), d(4.0), d(5.0)]);
    assert_eq!(h.weight_names, names(&["", "2", "ME", "ME2"]));
    let back = from_interchange(&h);
    assert_eq!(back.weight, d(1.0));
    assert_eq!(back.weight2, d(2.0));
    assert_eq!(back.me_weight, d(3.0));
    assert_eq!(back.me_weight2, d(4.0));
    assert_eq!(back.user_weights, vec![d(5.0)]);
}

#[test]
fn forward_record_shape() {
    let e = weighted_event();
    let h = to_interchange(&e);
    assert_eq!(h.number, 12);
    assert_eq!(h.scale, d(45.0));
    assert_eq!(h.alpha_qcd, 0);
    assert_eq!(h.energy_unit, EnergyUnit::GEV);
    assert_eq!(h.length_unit, LengthUnit::MM);
    assert_eq!(h.pdf_info, PdfInfo { parton_id: [2, -1], x: [d(0.25), d(0.5)], scale: d(91.0) });
    assert_eq!(h.vertices.len(), 1);
    assert_eq!(h.vertices[0].barcode, VERTEX_BARCODE);
    assert_ne!(VERTEX_BARCODE, 0);
    let ps = &h.vertices[0].particles_out;
    assert_eq!(ps.len(), 2);
    assert_eq!(
        ps[1],
        Particle { id: -11, energy: f(11.0), px: f(-2.0), py: f(3.0), pz: f(-7.5), status: OUTGOING_STATUS }
    );
}

#[test]
fn round_trip_keeps_representable_fields() {
    let e = weighted_event();
    let once = from_interchange(&to_interchange(&e));
    let mut expected = e.clone();
    expected.x1p = 0;
    expected.x2p = 0;
    expected.alphas = 0;
    expected.alphas_power = 0;
    expected.part = Part::B;
    assert_eq!(once, expected);
    let twice = from_interchange(&to_interchange(&once));
    assert_eq!(twice, once);
    assert_eq!(twice.x1p, 0);
    assert_eq!(twice.x2p, 0);
}

#[test]
fn only_outgoing_particles_kept() {
    let v1 = Vertex {
        barcode: -1,
        particles_out: vec![particle(1, 1.0, 1), particle(2, 2.0, 2), particle(3, 3.0, 1)],
    };
    let v2 = Vertex { barcode: -2, particles_out: vec![particle(4, 4.0, 3), particle(5, 5.0, 1)] };
    let h = record(vec![], vec![], vec![v1, v2]);
    let e = from_interchange(&h);
    assert_eq!(e.nparticle, 3);
    assert_eq!(e.pdg_code, vec![1, 3, 5]);
    assert_eq!(e.px, vec![f(1.0), f(3.0), f(5.0)]);
    assert_eq!(e.pz, vec![f(-1.0), f(-3.0), f(-5.0)]);
    assert_eq!(e.energy, vec![f(101.0), f(103.0), f(105.0)]);
    assert_eq!(e.id, 3);
    assert_eq!(e.alphas, d(0.2));
    assert_eq!(e.ren_scale, d(10.0));
    assert_eq!(e.fac_scale, d(20.0));
    assert_eq!((e.id1, e.id2), (1, 2));
    assert_eq!((e.x1, e.x2), (d(0.3), d(0.4)));
}

#[test]
fn weights_found_by_name_not_position() {
    let h = record(
        vec![d(10.0), d(20.0), d(30.0), d(40.0), d(50.0)],
        names(&["ME", "x", "ME2", "2"]),
        vec![],
    );
    let e = from_interchange(&h);
    assert_eq!(e.me_weight2, d(30.0));
    assert_eq!(e.me_weight, d(10.0));
    assert_eq!(e.weight2, d(40.0));
    assert_eq!(e.weight, d(20.0));
    assert_eq!(e.user_weights, vec![d(50.0)]);
    assert_eq!(e.nparticle, 0);
}

#[test]
fn missing_weights_are_zero() {
    let e = from_interchange(&record(vec![], vec![], vec![]));
    assert_eq!((e.weight, e.weight2, e.me_weight, e.me_weight2), (0, 0, 0, 0));
    assert!(e.user_weights.is_empty());
    let e = from_interchange(&record(vec![d(7.0), d(8.0)], vec![], vec![]));
    assert_eq!(e.weight, d(7.0));
    assert_eq!((e.weight2, e.me_weight, e.me_weight2), (0, 0, 0));
    assert_eq!(e.user_weights, vec![d(8.0)]);
}

#[test]
fn name_collision_goes_to_canonical_slot() {
    let h = record(vec![d(1.0), d(2.0), d(3.0)], names(&["", "ME", "ME"]), vec![]);
    let e = from_interchange(&h);
    assert_eq!(e.me_weight, d(2.0));
    assert_eq!(e.weight, d(1.0));
    assert_eq!(e.user_weights, vec![d(3.0)]);
}
