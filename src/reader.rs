use vstd::prelude::*;

use crate::event::{Event, NativeEvent};

verus! {

/// What the store answered when asked to open a file for reading.
#[derive(Copy, Clone, Debug, Eq, PartialEq, Hash, Structural)]
pub enum CreateStatus {
    Success,
    OpenFailed,
    NoTTree,
    Exception,
    /// Any answer that is not one of the above.
    Unknown,
}

/// Why a store could not be opened for reading.
#[derive(Clone, Debug, Eq, PartialEq, Ord, PartialOrd, Hash)]
pub enum CreateError {
    /// The file, by the path that was asked for, could not be opened.
    Open(String),
    /// The file holds no table of events.
    NoTTree,
    Exception,
    Unknown,
}

/// What the store answered when asked for the record at an index.
#[derive(Copy, Clone, Debug, Eq, PartialEq, Hash, Structural)]
pub enum ReadStatus {
    Success,
    NoEntry,
    Error,
    Exception,
    TooManyParticles,
    NegativeParticleNum,
    TooManyWeights,
    NegativeWeightNum,
    /// Any answer that is not one of the above.
    Unknown,
}

/// Why a record could not be read.
#[derive(Clone, Debug, Eq, PartialEq, Ord, PartialOrd, Hash)]
pub enum ReadError {
    TooManyParticles(i32),
    TooManyWeights(i32),
    NegParticleNum(i32),
    NegWeightNum(i32),
    ReadError,
    Exception,
    Unknown,
}

/// `err` is the error that a failed open with answer `status`, of the file
/// at `path`, stands for.
pub open spec fn is_create_error(err: CreateError, status: CreateStatus, path: Seq<char>) -> bool {
    match status {
        CreateStatus::OpenFailed => err matches CreateError::Open(p) && p@ == path,
        CreateStatus::NoTTree => err == CreateError::NoTTree,
        CreateStatus::Exception => err == CreateError::Exception,
        _ => err == CreateError::Unknown,
    }
}

/// The error that a failed read with answer `status` stands for; the counts
/// it carries come from the record that the store handed back.
pub open spec fn read_error(status: ReadStatus, record: &NativeEvent) -> ReadError {
    match status {
        ReadStatus::TooManyParticles => ReadError::TooManyParticles(record.nparticle),
        ReadStatus::NegativeParticleNum => ReadError::NegParticleNum(record.nparticle),
        ReadStatus::TooManyWeights => ReadError::TooManyWeights(record.nuwgt),
        ReadStatus::NegativeWeightNum => ReadError::NegWeightNum(record.nuwgt),
        ReadStatus::Error => ReadError::ReadError,
        ReadStatus::Exception => ReadError::Exception,
        _ => ReadError::Unknown,
    }
}

/// Where a cursor at `idx` stands after the store answered `status`: past
/// the record, unless there was none.
pub open spec fn index_after(idx: i64, status: ReadStatus) -> i64 {
    if status == ReadStatus::NoEntry {
        idx
    } else {
        (idx + 1) as i64
    }
}

/// How a store of `n` records, all readable, answers a read at `idx`.
pub open spec fn full_store_status(n: i64, idx: i64) -> ReadStatus {
    if 0 <= idx < n {
        ReadStatus::Success
    } else {
        ReadStatus::NoEntry
    }
}

/// The index of a cursor, started at 0, after `k` reads of a store of `n`
/// readable records.
pub open spec fn index_after_reads(n: i64, k: nat) -> i64
    decreases k,
{
    if k == 0 {
        0
    } else {
        let i = index_after_reads(n, (k - 1) as nat);
        index_after(i, full_store_status(n, i))
    }
}

/// Reading a store of `n` readable records from the start: the first `n`
/// reads each give an event and move the cursor on by one; every later read
/// finds no record and leaves the cursor at `n`.
pub proof fn lemma_reads_exhaust(n: i64, k: nat)
    requires
        n >= 0,
    ensures
        index_after_reads(n, k) == if k < n { k as int } else { n as int },
        full_store_status(n, index_after_reads(n, k)) == ReadStatus::Success <==> k < n,
    decreases k,
{
    if k > 0 {
        lemma_reads_exhaust(n, (k - 1) as nat);
    }
}

/// A forward cursor over the records of a store. It holds the index of the
/// next record to read; the store itself is asked for the record there and
/// for the number of records, and the cursor decides what its answers mean.
#[derive(Debug)]
pub struct Reader {
    idx: i64,
}

impl Reader {
    /// The index of the next record to read.
    pub closed spec fn index(&self) -> i64 {
        self.idx
    }

    /// A cursor at index 0 if the store was opened (`opened`), else the
    /// error that the store's answer `status` stands for.
    pub fn new(opened: bool, status: CreateStatus, path: String) -> (r: Result<Reader, CreateError>)
        ensures
            r is Ok <==> opened,
            r is Ok ==> r->Ok_0.index() == 0,
            r is Err ==> is_create_error(r->Err_0, status, path@),
    {
        if opened {
            Ok(Reader { idx: 0 })
        } else {
            match status {
                CreateStatus::OpenFailed => Err(CreateError::Open(path)),
                CreateStatus::NoTTree => Err(CreateError::NoTTree),
                CreateStatus::Exception => Err(CreateError::Exception),
                _ => Err(CreateError::Unknown),
            }
        }
    }

    /// The index of the next record to read.
    pub fn nevent(&self) -> (r: &i64)
        ensures
            *r == self.index(),
    {
        &self.idx
    }

    /// The index of the next record to read, to move the cursor.
    pub fn nevent_mut(&mut self) -> (r: &mut i64)
        ensures
            *r == old(self).index(),
            final(self).index() == *final(r),
    {
        &mut self.idx
    }

    /// Takes the store's answer to a read at the current index. The index
    /// moves on past the record unless there was none there, so that the
    /// cursor can be moved before the next try.
    pub fn next(&mut self, status: ReadStatus, record: NativeEvent) -> (r: Option<
        Result<Event, ReadError>,
    >)
        requires
            status == ReadStatus::Success ==> record.decodable(),
            status != ReadStatus::NoEntry ==> old(self).index() < i64::MAX,
        ensures
            r is None <==> status == ReadStatus::NoEntry,
            final(self).index() == index_after(old(self).index(), status),
            status != ReadStatus::NoEntry ==> final(self).index() == old(self).index() + 1,
            status == ReadStatus::Success ==> (r matches Some(Ok(e)) && e@ == record.decoded()),
            status != ReadStatus::Success && status != ReadStatus::NoEntry ==> r == Some(
                Err::<Event, ReadError>(read_error(status, &record)),
            ),
    {
        if status != ReadStatus::NoEntry {
            self.idx = self.idx + 1;
        }
        match status {
            ReadStatus::Success => Some(Ok(Event::from_native(record))),
            ReadStatus::NoEntry => None,
            ReadStatus::Error => Some(Err(ReadError::ReadError)),
            ReadStatus::Exception => Some(Err(ReadError::Exception)),
            ReadStatus::TooManyParticles => Some(Err(ReadError::TooManyParticles(record.nparticle))),
            ReadStatus::NegativeParticleNum => Some(Err(ReadError::NegParticleNum(record.nparticle))),
            ReadStatus::TooManyWeights => Some(Err(ReadError::TooManyWeights(record.nuwgt))),
            ReadStatus::NegativeWeightNum => Some(Err(ReadError::NegWeightNum(record.nuwgt))),
            ReadStatus::Unknown => Some(Err(ReadError::Unknown)),
        }
    }

    /// Moves the cursor `n` records on, as the first step of reading the
    /// `n`-th record from here.
    pub fn skip(&mut self, n: usize)
        requires
            n <= i64::MAX,
            old(self).index() + n <= i64::MAX,
        ensures
            final(self).index() == old(self).index() + n,
    {
        self.idx = self.idx + n as i64;
    }

    /// The number of records left in a store of `total` records, as lower
    /// and upper bound.
    pub fn size_hint(&self, total: i64) -> (r: (usize, Option<usize>))
        requires
            0 <= self.index() <= total,
            total - self.index() <= usize::MAX,
        ensures
            r.0 == total - self.index(),
            r.1 == Some((total - self.index()) as usize),
    {
        let remaining = (total - self.idx) as usize;
        (remaining, Some(remaining))
    }

    /// Moves the cursor to the last record of a store of `total` records.
    /// Returns whether there is one; an empty store leaves the cursor as it
    /// was.
    pub fn seek_last(&mut self, total: i64) -> (r: bool)
        ensures
            r <==> total > 0,
            r ==> final(self).index() == total - 1,
            !r ==> final(self).index() == old(self).index(),
    {
        if total > 0 {
            self.idx = total - 1;
            true
        } else {
            false
        }
    }
}

} // verus!
