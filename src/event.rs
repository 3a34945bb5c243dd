use vstd::prelude::*;

verus! {

/// Perturbative class of an event.
///
/// `S` is accepted for compatibility with existing files, but is not one of
/// the four standard classes `B`, `I`, `R`, `V`.
#[derive(Copy, Clone, Default, Debug, Eq, PartialEq, Ord, PartialOrd, Hash)]
pub enum Part {
    /// Born
    #[default]
    B,
    /// Integrated subtraction
    I,
    /// Real emission
    R,
    /// Virtual correction
    V,
    /// Auxiliary, non-standard class
    S,
}

/// The ASCII code of a class.
pub open spec fn part_code(p: Part) -> u8 {
    match p {
        Part::B => 66u8,
        Part::I => 73u8,
        Part::R => 82u8,
        Part::V => 86u8,
        Part::S => 83u8,
    }
}

/// The class with ASCII code `c`, if there is one.
pub open spec fn part_of_code(c: u8) -> Option<Part> {
    if c == 66 {
        Some(Part::B)
    } else if c == 73 {
        Some(Part::I)
    } else if c == 82 {
        Some(Part::R)
    } else if c == 86 {
        Some(Part::V)
    } else if c == 83 {
        Some(Part::S)
    } else {
        None
    }
}

/// Every class has a code, distinct classes have distinct codes, and a
/// code reads back as the class it was written from.
pub proof fn lemma_part_code_round_trip(p: Part, q: Part)
    ensures
        part_of_code(part_code(p)) == Some(p),
        part_code(p) == part_code(q) ==> p == q,
{
}

/// A code names a class exactly when it is one of the five codes, and the
/// class then writes back to the same code.
pub proof fn lemma_code_part_round_trip(c: u8)
    ensures
        part_of_code(c) is Some <==> (c == 66 || c == 73 || c == 82 || c == 86 || c == 83),
        part_of_code(c) is Some ==> part_code(part_of_code(c)->0) == c,
{
}

impl From<Part> for u8 {
    fn from(p: Part) -> (r: u8) {
        match p {
            Part::B => 66,
            Part::I => 73,
            Part::R => 82,
            Part::V => 86,
            Part::S => 83,
        }
    }
}

impl vstd::std_specs::convert::FromSpecImpl<Part> for u8 {
    open spec fn obeys_from_spec() -> bool {
        true
    }

    open spec fn from_spec(p: Part) -> u8 {
        part_code(p)
    }
}

impl From<Part> for i8 {
    fn from(p: Part) -> (r: i8) {
        u8::from(p) as i8
    }
}

impl vstd::std_specs::convert::FromSpecImpl<Part> for i8 {
    open spec fn obeys_from_spec() -> bool {
        true
    }

    open spec fn from_spec(p: Part) -> i8 {
        part_code(p) as i8
    }
}

impl From<Part> for char {
    fn from(p: Part) -> (r: char) {
        u8::from(p) as char
    }
}

impl vstd::std_specs::convert::FromSpecImpl<Part> for char {
    open spec fn obeys_from_spec() -> bool {
        true
    }

    open spec fn from_spec(p: Part) -> char {
        part_code(p) as char
    }
}

/// A character that is not the code of any class.
#[derive(Copy, Clone, Debug, Eq, PartialEq, Ord, PartialOrd, Hash)]
pub enum ConversionError {
    BadChar(char),
}

/// What reading the code `c` gives: the class, or an error naming `c`.
pub open spec fn part_result(c: u8) -> Result<Part, ConversionError> {
    match part_of_code(c) {
        Some(p) => Ok(p),
        None => Err(ConversionError::BadChar(c as char)),
    }
}

impl TryFrom<u8> for Part {
    type Error = ConversionError;

    fn try_from(c: u8) -> (r: Result<Part, ConversionError>) {
        if c == 66 {
            Ok(Part::B)
        } else if c == 73 {
            Ok(Part::I)
        } else if c == 82 {
            Ok(Part::R)
        } else if c == 86 {
            Ok(Part::V)
        } else if c == 83 {
            Ok(Part::S)
        } else {
            Err(ConversionError::BadChar(c as char))
        }
    }
}

impl vstd::std_specs::convert::TryFromSpecImpl<u8> for Part {
    open spec fn obeys_try_from_spec() -> bool {
        true
    }

    open spec fn try_from_spec(c: u8) -> Result<Part, ConversionError> {
        part_result(c)
    }
}

/// What reading the character `c` gives: the class, or an error naming `c`.
pub open spec fn part_result_char(c: char) -> Result<Part, ConversionError> {
    if c == 'B' {
        Ok(Part::B)
    } else if c == 'I' {
        Ok(Part::I)
    } else if c == 'R' {
        Ok(Part::R)
    } else if c == 'V' {
        Ok(Part::V)
    } else if c == 'S' {
        Ok(Part::S)
    } else {
        Err(ConversionError::BadChar(c))
    }
}

impl TryFrom<char> for Part {
    type Error = ConversionError;

    fn try_from(c: char) -> (r: Result<Part, ConversionError>) {
        match c {
            'B' => Ok(Part::B),
            'I' => Ok(Part::I),
            'R' => Ok(Part::R),
            'V' => Ok(Part::V),
            'S' => Ok(Part::S),
            c => Err(ConversionError::BadChar(c)),
        }
    }
}

impl vstd::std_specs::convert::TryFromSpecImpl<char> for Part {
    open spec fn obeys_try_from_spec() -> bool {
        true
    }

    open spec fn try_from_spec(c: char) -> Result<Part, ConversionError> {
        part_result_char(c)
    }
}

/// The byte that a C `char` holds, as an unsigned code.
pub open spec fn char_code(c: i8) -> u8 {
    if c >= 0 {
        c as u8
    } else {
        (c + 256) as u8
    }
}

fn c_char_code(c: i8) -> (r: u8)
    ensures
        r == char_code(c),
{
    if c >= 0 {
        c as u8
    } else {
        (c as i16 + 256) as u8
    }
}

impl TryFrom<i8> for Part {
    type Error = ConversionError;

    /// The store keeps the code as a C `char`; its bits are the ASCII code.
    fn try_from(c: i8) -> (r: Result<Part, ConversionError>) {
        Part::try_from(c_char_code(c))
    }
}

impl vstd::std_specs::convert::TryFromSpecImpl<i8> for Part {
    open spec fn obeys_try_from_spec() -> bool {
        true
    }

    open spec fn try_from_spec(c: i8) -> Result<Part, ConversionError> {
        part_result(char_code(c))
    }
}

/// One physics event.
///
/// Single-precision momenta are held as `u32` bit patterns, double-precision
/// quantities as `u64` bit patterns.
#[derive(Clone, Debug, Default, PartialEq)]
pub struct Event {
    pub id: i32,
    /// Number of particles: the length of `px`, `py`, `pz`, `energy` and
    /// `pdg_code`.
    pub nparticle: i32,
    pub px: Vec<u32>,
    pub py: Vec<u32>,
    pub pz: Vec<u32>,
    pub energy: Vec<u32>,
    /// Strong coupling at the event scale.
    pub alphas: u64,
    pub pdg_code: Vec<i32>,
    pub weight: u64,
    pub weight2: u64,
    pub me_weight: u64,
    pub me_weight2: u64,
    pub x1: u64,
    pub x2: u64,
    pub x1p: u64,
    pub x2p: u64,
    pub id1: i32,
    pub id2: i32,
    pub fac_scale: u64,
    pub ren_scale: u64,
    pub user_weights: Vec<u64>,
    pub part: Part,
    /// Power of the strong coupling in the event weight.
    pub alphas_power: i16,
}

/// The mathematical value of an [`Event`].
#[verifier::ext_equal]
pub struct EventView {
    pub id: i32,
    pub nparticle: i32,
    pub px: Seq<u32>,
    pub py: Seq<u32>,
    pub pz: Seq<u32>,
    pub energy: Seq<u32>,
    pub alphas: u64,
    pub pdg_code: Seq<i32>,
    pub weight: u64,
    pub weight2: u64,
    pub me_weight: u64,
    pub me_weight2: u64,
    pub x1: u64,
    pub x2: u64,
    pub x1p: u64,
    pub x2p: u64,
    pub id1: i32,
    pub id2: i32,
    pub fac_scale: u64,
    pub ren_scale: u64,
    pub user_weights: Seq<u64>,
    pub part: Part,
    pub alphas_power: i16,
}

impl View for Event {
    type V = EventView;

    open spec fn view(&self) -> EventView {
        EventView {
            id: self.id,
            nparticle: self.nparticle,
            px: self.px@,
            py: self.py@,
            pz: self.pz@,
            energy: self.energy@,
            alphas: self.alphas,
            pdg_code: self.pdg_code@,
            weight: self.weight,
            weight2: self.weight2,
            me_weight: self.me_weight,
            me_weight2: self.me_weight2,
            x1: self.x1,
            x2: self.x2,
            x1p: self.x1p,
            x2p: self.x2p,
            id1: self.id1,
            id2: self.id2,
            fac_scale: self.fac_scale,
            ren_scale: self.ren_scale,
            user_weights: self.user_weights@,
            part: self.part,
            alphas_power: self.alphas_power,
        }
    }
}

impl EventView {
    /// Each of the first `nparticle` particles can be read from every
    /// per-particle array.
    pub open spec fn particles_readable(self) -> bool {
        &&& self.nparticle >= 0
        &&& self.px.len() >= self.nparticle
        &&& self.py.len() >= self.nparticle
        &&& self.pz.len() >= self.nparticle
        &&& self.energy.len() >= self.nparticle
        &&& self.pdg_code.len() >= self.nparticle
    }

    /// The store's invariants: a non-negative particle count that is the
    /// length of every per-particle array, and a user weight count that fits
    /// in an `i32`.
    pub open spec fn well_formed(self) -> bool {
        &&& self.nparticle >= 0
        &&& self.px.len() == self.nparticle
        &&& self.py.len() == self.nparticle
        &&& self.pz.len() == self.nparticle
        &&& self.energy.len() == self.nparticle
        &&& self.pdg_code.len() == self.nparticle
        &&& self.user_weights.len() <= i32::MAX
    }
}

/// One record in the store's own layout: the per-particle arrays and the
/// user weights with their counts beside them, and the class as a C `char`.
pub struct NativeEvent {
    pub id: i32,
    pub nparticle: i32,
    pub px: Vec<u32>,
    pub py: Vec<u32>,
    pub pz: Vec<u32>,
    pub energy: Vec<u32>,
    pub alphas: u64,
    pub kf: Vec<i32>,
    pub weight: u64,
    pub weight2: u64,
    pub me_wgt: u64,
    pub me_wgt2: u64,
    pub x1: u64,
    pub x2: u64,
    pub x1p: u64,
    pub x2p: u64,
    pub id1: i32,
    pub id2: i32,
    pub fac_scale: u64,
    pub ren_scale: u64,
    pub nuwgt: i32,
    pub usr_wgts: Vec<u64>,
    pub part: i8,
    pub alphas_power: i16,
}

impl NativeEvent {
    /// A record that decodes: non-negative counts that are the lengths of
    /// the arrays, and a known class code.
    pub open spec fn decodable(&self) -> bool {
        &&& self.nparticle >= 0
        &&& self.nuwgt >= 0
        &&& self.px@.len() == self.nparticle
        &&& self.py@.len() == self.nparticle
        &&& self.pz@.len() == self.nparticle
        &&& self.energy@.len() == self.nparticle
        &&& self.kf@.len() == self.nparticle
        &&& self.usr_wgts@.len() == self.nuwgt
        &&& part_of_code(char_code(self.part)) is Some
    }

    /// The event that this record holds.
    pub open spec fn decoded(&self) -> EventView {
        EventView {
            id: self.id,
            nparticle: self.nparticle,
            px: self.px@,
            py: self.py@,
            pz: self.pz@,
            energy: self.energy@,
            alphas: self.alphas,
            pdg_code: self.kf@,
            weight: self.weight,
            weight2: self.weight2,
            me_weight: self.me_wgt,
            me_weight2: self.me_wgt2,
            x1: self.x1,
            x2: self.x2,
            x1p: self.x1p,
            x2p: self.x2p,
            id1: self.id1,
            id2: self.id2,
            fac_scale: self.fac_scale,
            ren_scale: self.ren_scale,
            user_weights: self.usr_wgts@,
            part: part_of_code(char_code(self.part))->0,
            alphas_power: self.alphas_power,
        }
    }

    /// This record is the store's layout of the event `e`.
    pub open spec fn encodes(&self, e: EventView) -> bool {
        &&& self.id == e.id
        &&& self.nparticle == e.nparticle
        &&& self.px@ == e.px
        &&& self.py@ == e.py
        &&& self.pz@ == e.pz
        &&& self.energy@ == e.energy
        &&& self.alphas == e.alphas
        &&& self.kf@ == e.pdg_code
        &&& self.weight == e.weight
        &&& self.weight2 == e.weight2
        &&& self.me_wgt == e.me_weight
        &&& self.me_wgt2 == e.me_weight2
        &&& self.x1 == e.x1
        &&& self.x2 == e.x2
        &&& self.x1p == e.x1p
        &&& self.x2p == e.x2p
        &&& self.id1 == e.id1
        &&& self.id2 == e.id2
        &&& self.fac_scale == e.fac_scale
        &&& self.ren_scale == e.ren_scale
        &&& self.nuwgt == e.user_weights.len()
        &&& self.usr_wgts@ == e.user_weights
        &&& self.part == part_code(e.part) as i8
        &&& self.alphas_power == e.alphas_power
    }
}

impl Event {
    /// Takes ownership of the arrays of a record read from the store.
    pub fn from_native(ev: NativeEvent) -> (r: Event)
        requires
            ev.decodable(),
        ensures
            r@ == ev.decoded(),
    {
        let part = match Part::try_from(ev.part) {
            Ok(p) => p,
            Err(_) => {
                proof {
                    assert(false);
                }
                Part::B
            },
        };
        Event {
            id: ev.id,
            nparticle: ev.nparticle,
            px: ev.px,
            py: ev.py,
            pz: ev.pz,
            energy: ev.energy,
            alphas: ev.alphas,
            pdg_code: ev.kf,
            weight: ev.weight,
            weight2: ev.weight2,
            me_weight: ev.me_wgt,
            me_weight2: ev.me_wgt2,
            x1: ev.x1,
            x2: ev.x2,
            x1p: ev.x1p,
            x2p: ev.x2p,
            id1: ev.id1,
            id2: ev.id2,
            fac_scale: ev.fac_scale,
            ren_scale: ev.ren_scale,
            user_weights: ev.usr_wgts,
            alphas_power: ev.alphas_power,
            part,
        }
    }
}

/// The store layout of `e` and the record that decodes from it hold the
/// same event: writing an event to the store and reading it back gives the
/// event unchanged.
pub proof fn lemma_native_round_trip(e: EventView, n: NativeEvent)
    requires
        e.well_formed(),
        n.encodes(e),
    ensures
        n.decodable(),
        n.decoded() == e,
{
    lemma_part_code_round_trip(e.part, e.part);
}

/// An event read from a record meets the store's invariants, and its store
/// layout is that record again: whatever is read can be written back as it
/// was.
pub proof fn lemma_decoded_rewrites(n: NativeEvent)
    requires
        n.decodable(),
    ensures
        n.decoded().well_formed(),
        n.encodes(n.decoded()),
{
    lemma_code_part_round_trip(char_code(n.part));
}

} // verus!
