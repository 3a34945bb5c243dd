use vstd::prelude::*;

use crate::event::{Event, EventView, NativeEvent};

verus! {

/// What the store answered to an append.
#[derive(Copy, Clone, Debug, Eq, PartialEq, Hash, Structural)]
pub enum WriteStatus {
    Success,
    TooManyParticles,
    TooManyWeights,
    FillError,
    /// Any answer that is not one of the above.
    Unknown,
}

/// Why an event was not written.
#[derive(Clone, Debug, Eq, PartialEq, Ord, PartialOrd, Hash)]
#[non_exhaustive]
pub enum WriteError {
    TooManyParticles,
    TooManyWeights,
    /// Length of the named array, its name, and the particle count.
    LengthMismatch(usize, String, usize),
    NegParticleNum(i32),
    FillError,
    UnknownError,
}

/// The error that an answer of the store stands for. An answer that is no
/// failure the store is known to give is an unknown error.
pub open spec fn status_error(s: WriteStatus) -> WriteError {
    match s {
        WriteStatus::TooManyParticles => WriteError::TooManyParticles,
        WriteStatus::TooManyWeights => WriteError::TooManyWeights,
        WriteStatus::FillError => WriteError::FillError,
        _ => WriteError::UnknownError,
    }
}

impl From<WriteStatus> for WriteError {
    fn from(s: WriteStatus) -> (r: WriteError) {
        match s {
            WriteStatus::TooManyParticles => WriteError::TooManyParticles,
            WriteStatus::TooManyWeights => WriteError::TooManyWeights,
            WriteStatus::FillError => WriteError::FillError,
            _ => WriteError::UnknownError,
        }
    }
}

impl vstd::std_specs::convert::FromSpecImpl<WriteStatus> for WriteError {
    open spec fn obeys_from_spec() -> bool {
        true
    }

    open spec fn from_spec(s: WriteStatus) -> WriteError {
        status_error(s)
    }
}

pub open spec fn name_px() -> Seq<char> {
    seq!['p', 'x']
}

pub open spec fn name_py() -> Seq<char> {
    seq!['p', 'y']
}

pub open spec fn name_pz() -> Seq<char> {
    seq!['p', 'z']
}

pub open spec fn name_energy() -> Seq<char> {
    seq!['e', 'n', 'e', 'r', 'g', 'y']
}

pub open spec fn name_pdg_code() -> Seq<char> {
    seq!['p', 'd', 'g', '_', 'c', 'o', 'd', 'e']
}

/// `r` is a length mismatch of the array `name`, of length `got` where
/// `want` particles were declared.
pub open spec fn is_mismatch<T>(r: Result<T, WriteError>, got: int, name: Seq<char>, want: int) -> bool {
    &&& r is Err
    &&& r->Err_0 matches WriteError::LengthMismatch(g, n, w)
    &&& g == got
    &&& n@ == name
    &&& w == want
}

/// What checking `e` against the store's invariants gives, in the order of
/// the checks: the first violated one wins.
pub open spec fn check_outcome<T>(e: EventView, r: Result<T, WriteError>) -> bool {
    let n = e.nparticle as int;
    if e.nparticle < 0 {
        r == Err::<T, WriteError>(WriteError::NegParticleNum(e.nparticle))
    } else if e.px.len() != n {
        is_mismatch(r, e.px.len() as int, name_px(), n)
    } else if e.py.len() != n {
        is_mismatch(r, e.py.len() as int, name_py(), n)
    } else if e.pz.len() != n {
        is_mismatch(r, e.pz.len() as int, name_pz(), n)
    } else if e.energy.len() != n {
        is_mismatch(r, e.energy.len() as int, name_energy(), n)
    } else if e.pdg_code.len() != n {
        is_mismatch(r, e.pdg_code.len() as int, name_pdg_code(), n)
    } else if e.user_weights.len() > i32::MAX {
        r == Err::<T, WriteError>(WriteError::TooManyWeights)
    } else {
        r is Ok
    }
}

impl NativeEvent {
    /// The store layout of an event that meets the store's invariants.
    pub fn from_event(e: &Event) -> (r: NativeEvent)
        requires
            e@.well_formed(),
        ensures
            r.encodes(e@),
    {
        NativeEvent {
            id: e.id,
            nparticle: e.nparticle,
            px: e.px.clone(),
            py: e.py.clone(),
            pz: e.pz.clone(),
            energy: e.energy.clone(),
            alphas: e.alphas,
            kf: e.pdg_code.clone(),
            weight: e.weight,
            weight2: e.weight2,
            me_wgt: e.me_weight,
            me_wgt2: e.me_weight2,
            x1: e.x1,
            x2: e.x2,
            x1p: e.x1p,
            x2p: e.x2p,
            id1: e.id1,
            id2: e.id2,
            fac_scale: e.fac_scale,
            ren_scale: e.ren_scale,
            nuwgt: e.user_weights.len() as i32,
            usr_wgts: e.user_weights.clone(),
            part: i8::from(e.part),
            alphas_power: e.alphas_power,
        }
    }
}

/// Checks `e` against the store's invariants, in order: a non-negative
/// particle count, then the length of each per-particle array, then the
/// number of user weights.
pub fn check_event(e: &Event) -> (r: Result<(), WriteError>)
    ensures
        check_outcome(e@, r),
        r is Ok <==> e@.well_formed(),
{
    if e.nparticle < 0 {
        return Err(WriteError::NegParticleNum(e.nparticle));
    }
    let npart = e.nparticle as usize;
    if e.px.len() != npart {
        proof {
            reveal_strlit("px");
            assert("px"@ =~= name_px());
        }
        return Err(WriteError::LengthMismatch(e.px.len(), String::from_str("px"), npart));
    }
    if e.py.len() != npart {
        proof {
            reveal_strlit("py");
            assert("py"@ =~= name_py());
        }
        return Err(WriteError::LengthMismatch(e.py.len(), String::from_str("py"), npart));
    }
    if e.pz.len() != npart {
        proof {
            reveal_strlit("pz");
            assert("pz"@ =~= name_pz());
        }
        return Err(WriteError::LengthMismatch(e.pz.len(), String::from_str("pz"), npart));
    }
    if e.energy.len() != npart {
        proof {
            reveal_strlit("energy");
            assert("energy"@ =~= name_energy());
        }
        return Err(
            WriteError::LengthMismatch(e.energy.len(), String::from_str("energy"), npart),
        );
    }
    if e.pdg_code.len() != npart {
        proof {
            reveal_strlit("pdg_code");
            assert("pdg_code"@ =~= name_pdg_code());
        }
        return Err(
            WriteError::LengthMismatch(e.pdg_code.len(), String::from_str("pdg_code"), npart),
        );
    }
    if e.user_weights.len() > i32::MAX as usize {
        return Err(WriteError::TooManyWeights);
    }
    Ok(())
}

/// The sink side of a store: it decides what is handed to the store and
/// what the store's answer means. Its model is the sequence of events that
/// it has appended.
pub struct Writer {
    appended: Ghost<Seq<EventView>>,
}

impl Writer {
    /// The events appended through this sink, oldest first.
    pub closed spec fn appended(&self) -> Seq<EventView> {
        self.appended@
    }

    /// A sink on a destination, if the destination could be opened for
    /// writing.
    pub fn new(opened: bool) -> (r: Option<Writer>)
        ensures
            r is Some <==> opened,
            r is Some ==> r->0.appended() == Seq::<EventView>::empty(),
    {
        if opened {
            Some(Writer { appended: Ghost(Seq::empty()) })
        } else {
            None
        }
    }

    /// Checks `e` and, if it meets the store's invariants, lays it out as
    /// the store's record. Nothing is appended yet.
    pub fn prepare(&self, e: &Event) -> (r: Result<NativeEvent, WriteError>)
        ensures
            check_outcome(e@, r),
            r is Ok <==> e@.well_formed(),
            r is Ok ==> r->Ok_0.encodes(e@),
    {
        match check_event(e) {
            Ok(()) => Ok(NativeEvent::from_event(e)),
            Err(err) => Err(err),
        }
    }

    /// Takes the store's answer to the append of `record`: on success the
    /// record's event is appended, on failure nothing is.
    pub fn finish(&mut self, record: &NativeEvent, status: WriteStatus) -> (r: Result<
        (),
        WriteError,
    >)
        ensures
            r is Ok <==> status == WriteStatus::Success,
            r is Ok ==> final(self).appended() == old(self).appended().push(record.decoded()),
            r is Err ==> r->Err_0 == status_error(status),
            r is Err ==> final(self).appended() == old(self).appended(),
    {
        match status {
            WriteStatus::Success => {
                self.appended = Ghost(self.appended@.push(record.decoded()));
                Ok(())
            },
            other => Err(WriteError::from(other)),
        }
    }
}

} // verus!
