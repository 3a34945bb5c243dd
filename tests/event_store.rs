use ntuple::event::{ConversionError, NativeEvent, Part};
use ntuple::reader::{CreateError, CreateStatus, ReadError, ReadStatus};
use ntuple::writer::{check_event, WriteError, WriteStatus};
use ntuple::{Event, Reader, Writer};

fn f(x: f32) -> u32 {
    x.to_bits()
}

fn d(x: f64) -> u64 {
    x.to_bits()
}

fn sample_event(id: i32, n: usize) -> Event {
    let mut e = Event::default();
    e.id = id;
    e.nparticle = n as i32;
    for i in 0..n {
        let x = i as f32;
        e.px.push(f(x + 0.5));
        e.py.push(f(-x));
        e.pz.push(f(2.0 * x));
        e.energy.push(f(10.0 + x));
        e.pdg_code.push(21 + i as i32);
    }
    e.alphas = d(0.118);
    e.weight = d(1.0);
    e.weight2 = d(2.0);
    e.me_weight = d(3.0);
    e.me_weight2 = d(4.0);
    e.x1 = d(0.1);
    e.x2 = d(0.2);
    e.x1p = d(0.3);
    e.x2p = d(0.4);
    e.id1 = 1;
    e.id2 = -2;
    e.fac_scale = d(91.2);
    e.ren_scale = d(45.6);
    e.user_weights = vec![d(5.0), d(6.0)];
    e.part = Part::R;
    e.alphas_power = 2;
    e
}

fn empty_record(nparticle: i32, nuwgt: i32) -> NativeEvent {
    NativeEvent {
        id: 0,
        nparticle,
        px: vec![],
        py: vec![],
        pz: vec![],
        energy: vec![],
        alphas: 0,
        kf: vec![],
        weight: 0,
        weight2: 0,
        me_wgt: 0,
        me_wgt2: 0,
        x1: 0,
        x2: 0,
        x1p: 0,
        x2p: 0,
        id1: 0,
        id2: 0,
        fac_scale: 0,
        ren_scale: 0,
        nuwgt,
        usr_wgts: vec![],
        part: b'B' as i8,
        alphas_power: 0,
    }
}

#[test]
fn part_born_round_trip() {
    let p = Part::try_from(b'B').unwrap();
    assert_eq!(p, Part::B);
    assert_eq!(u8::from(p), b'B');
}

#[test]
fn part_rejects_unknown_code() {
    assert_eq!(Part::try_from(b'Q'), Err(ConversionError::BadChar('Q')));
    assert_eq!(Part::try_from('Q'), Err(ConversionError::BadChar('Q')));
    assert_eq!(Part::try_from(b'b'), Err(ConversionError::BadChar('b')));
}

#[test]
fn part_all_codes() {
    let codes = [(Part::B, 'B'), (Part::I, 'I'), (Part::R, 'R'), (Part::V, 'V'), (Part::S, 'S')];
    for (p, c) in codes {
        assert_eq!(char::from(p), c);
        assert_eq!(u8::from(p), c as u8);
        assert_eq!(i8::from(p), c as u8 as i8);
        assert_eq!(Part::try_from(c), Ok(p));
        assert_eq!(Part::try_from(c as u8), Ok(p));
        assert_eq!(Part::try_from(c as u8 as i8), Ok(p));
    }
    assert_eq!(Part::default(), Part::B);
}

#[test]
fn write_rejects_px_length_mismatch() {
    let mut e = sample_event(1, 3);
    e.px.pop();
    let w = Writer::new(true).unwrap();
    assert_eq!(w.prepare(&e).err(), Some(WriteError::LengthMismatch(2, "px".to_string(), 3)));
}

#[test]
fn write_rejects_negative_particle_count() {
    let mut e = sample_event(1, 0);
    e.nparticle = -1;
    let w = Writer::new(true).unwrap();
    assert_eq!(w.prepare(&e).err(), Some(WriteError::NegParticleNum(-1)));
    assert_eq!(check_event(&e), Err(WriteError::NegParticleNum(-1)));
}

#[test]
fn write_reports_first_mismatch_in_field_order() {
    let mut e = sample_event(1, 2);
    e.py.push(0);
    e.energy.clear();
    assert_eq!(check_event(&e), Err(WriteError::LengthMismatch(3, "py".to_string(), 2)));
    e.py.pop();
    assert_eq!(check_event(&e), Err(WriteError::LengthMismatch(0, "energy".to_string(), 2)));
    e.pz.pop();
    assert_eq!(check_event(&e), Err(WriteError::LengthMismatch(1, "pz".to_string(), 2)));
    let mut g = sample_event(1, 2);
    g.pdg_code.push(5);
    assert_eq!(check_event(&g), Err(WriteError::LengthMismatch(3, "pdg_code".to_string(), 2)));
    assert_eq!(check_event(&sample_event(1, 2)), Ok(()));
}

#[test]
fn writer_needs_open_destination() {
    assert!(Writer::new(false).is_none());
    assert!(Writer::new(true).is_some());
}

#[test]
fn write_lays_out_record() {
    let e = sample_event(7, 2);
    let w = Writer::new(true).unwrap();
    let rec = w.prepare(&e).unwrap();
    assert_eq!(rec.id, 7);
    assert_eq!(rec.nparticle, 2);
    assert_eq!(rec.kf, e.pdg_code);
    assert_eq!(rec.px, e.px);
    assert_eq!(rec.nuwgt, 2);
    assert_eq!(rec.usr_wgts, e.user_weights);
    assert_eq!(rec.me_wgt2, d(4.0));
    assert_eq!(rec.part, b'R' as i8);
}

#[test]
fn write_maps_store_answers() {
    let e = sample_event(7, 1);
    let mut w = Writer::new(true).unwrap();
    let rec = w.prepare(&e).unwrap();
    assert_eq!(w.finish(&rec, WriteStatus::Success), Ok(()));
    assert_eq!(w.finish(&rec, WriteStatus::TooManyParticles), Err(WriteError::TooManyParticles));
    assert_eq!(w.finish(&rec, WriteStatus::TooManyWeights), Err(WriteError::TooManyWeights));
    assert_eq!(w.finish(&rec, WriteStatus::FillError), Err(WriteError::FillError));
    assert_eq!(w.finish(&rec, WriteStatus::Unknown), Err(WriteError::UnknownError));
    assert_eq!(WriteError::from(WriteStatus::Success), WriteError::UnknownError);
}

#[test]
fn store_layout_round_trip() {
    for n in 0..4 {
        let e = sample_event(n as i32, n);
        let rec = NativeEvent::from_event(&e);
        assert_eq!(Event::from_native(rec), e);
    }
}

#[test]
fn reader_open_errors() {
    let r = Reader::new(true, CreateStatus::Success, "a.root".to_string()).unwrap();
    assert_eq!(*r.nevent(), 0);
    assert_eq!(
        Reader::new(false, CreateStatus::OpenFailed, "a.root".to_string()).err(),
        Some(CreateError::Open("a.root".to_string()))
    );
    assert_eq!(
        Reader::new(false, CreateStatus::NoTTree, String::new()).err(),
        Some(CreateError::NoTTree)
    );
    assert_eq!(
        Reader::new(false, CreateStatus::Exception, String::new()).err(),
        Some(CreateError::Exception)
    );
    assert_eq!(
        Reader::new(false, CreateStatus::Success, String::new()).err(),
        Some(CreateError::Unknown)
    );
}

#[test]
fn reader_exhaustion() {
    let events = vec![sample_event(1, 2), sample_event(2, 0), sample_event(3, 1)];
    let mut r = Reader::new(true, CreateStatus::Success, String::new()).unwrap();
    let mut got = vec![];
    for _ in 0..events.len() + 1 {
        let idx = *r.nevent() as usize;
        let out = if idx < events.len() {
            r.next(ReadStatus::Success, NativeEvent::from_event(&events[idx]))
        } else {
            r.next(ReadStatus::NoEntry, empty_record(0, 0))
        };
        got.push(out);
    }
    for (i, e) in events.iter().enumerate() {
        assert_eq!(got[i], Some(Ok(e.clone())));
    }
    assert_eq!(got[3], None);
    assert_eq!(*r.nevent(), 3);
    assert_eq!(r.next(ReadStatus::NoEntry, empty_record(0, 0)), None);
    assert_eq!(*r.nevent(), 3);
}

#[test]
fn reader_errors_advance() {
    let mut r = Reader::new(true, CreateStatus::Success, String::new()).unwrap();
    let cases = [
        (ReadStatus::TooManyParticles, ReadError::TooManyParticles(5000)),
        (ReadStatus::NegativeParticleNum, ReadError::NegParticleNum(5000)),
        (ReadStatus::TooManyWeights, ReadError::TooManyWeights(-3)),
        (ReadStatus::NegativeWeightNum, ReadError::NegWeightNum(-3)),
        (ReadStatus::Error, ReadError::ReadError),
        (ReadStatus::Exception, ReadError::Exception),
        (ReadStatus::Unknown, ReadError::Unknown),
    ];
    for (i, (status, err)) in cases.into_iter().enumerate() {
        assert_eq!(r.next(status, empty_record(5000, -3)), Some(Err(err)));
        assert_eq!(*r.nevent(), i as i64 + 1);
    }
}

#[test]
fn reader_moves() {
    let mut r = Reader::new(true, CreateStatus::Success, String::new()).unwrap();
    *r.nevent_mut() = 5;
    assert_eq!(*r.nevent(), 5);
    r.skip(3);
    assert_eq!(*r.nevent(), 8);
    assert_eq!(r.size_hint(10), (2, Some(2)));
    assert_eq!(r.size_hint(8), (0, Some(0)));
    assert!(r.seek_last(10));
    assert_eq!(*r.nevent(), 9);
    assert!(!r.seek_last(0));
    assert_eq!(*r.nevent(), 9);
}
