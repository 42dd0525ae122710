//! Advice to the system on how a mapping will be accessed, over
//! `memmap2::Mmap::advise` and `memmap2::MmapMut::advise`, and the cell that holds
//! the advice a process applies by default.

use crate::mmap_type::{MmapBitSlice, MmapSlice, MmapType};
use crate::plain::PlainData;
use crate::region::{io_outcome, MmapError, Region};
use vstd::prelude::*;

verus! {

/// How a mapping is expected to be accessed.
#[derive(Clone, Copy, Debug, PartialEq, Eq, Structural)]
pub enum Advice {
    /// No special treatment.
    Normal,
    /// Pages are touched in no particular order.
    Random,
    /// Pages are touched one after the other.
    Sequential,
    /// Pages are to be read in at once. The mapping crate has no such advice to
    /// give, so asking for it fails as unsupported.
    PopulateRead,
}

impl Default for Advice {
    /// The advice applied where none was set: [`Advice::Random`].
    fn default() -> (advice: Advice)
        ensures
            advice == Advice::Random,
    {
        Advice::Random
    }
}

/// The advice that can be passed on to the system.
#[derive(Clone, Copy, Debug, PartialEq, Eq, Structural)]
pub enum SupportedAdvice {
    Normal,
    Random,
    Sequential,
}

impl SupportedAdvice {
    /// Picks what is passed on for `advice`, or fails as unsupported for
    /// [`Advice::PopulateRead`].
    pub fn try_from(advice: Advice) -> (result: Result<SupportedAdvice, MmapError>)
        ensures
            match advice {
                Advice::Normal => result == Ok::<SupportedAdvice, MmapError>(
                    SupportedAdvice::Normal,
                ),
                Advice::Random => result == Ok::<SupportedAdvice, MmapError>(
                    SupportedAdvice::Random,
                ),
                Advice::Sequential => result == Ok::<SupportedAdvice, MmapError>(
                    SupportedAdvice::Sequential,
                ),
                Advice::PopulateRead => result == Err::<SupportedAdvice, MmapError>(
                    MmapError::Unsupported,
                ),
            },
    {
        match advice {
            Advice::Normal => Ok(SupportedAdvice::Normal),
            Advice::Random => Ok(SupportedAdvice::Random),
            Advice::Sequential => Ok(SupportedAdvice::Sequential),
            Advice::PopulateRead => Err(MmapError::Unsupported),
        }
    }
}

/// Trusted: `memmap2::Mmap`, a read-only memory map, opaque to the verifier.
#[verifier::external_type_specification]
#[verifier::external_body]
pub struct ExMmap(memmap2::Mmap);

/// Trusted: `memmap2::Mmap::advise` hands the advice of the same name to the system
/// for the whole map and reports what the system said.
#[verifier::external_body]
fn advise_map(map: &memmap2::Mmap, advice: SupportedAdvice) -> (outcome: Result<(), std::io::Error>) {
    map.advise(
        match advice {
            SupportedAdvice::Normal => memmap2::Advice::Normal,
            SupportedAdvice::Random => memmap2::Advice::Random,
            SupportedAdvice::Sequential => memmap2::Advice::Sequential,
        },
    )
}

/// Trusted: `memmap2::MmapMut::advise` hands the advice of the same name to the
/// system for the whole map and reports what the system said.
#[verifier::external_body]
fn advise_map_mut(map: &memmap2::MmapMut, advice: SupportedAdvice) -> (outcome: Result<
    (),
    std::io::Error,
>) {
    map.advise(
        match advice {
            SupportedAdvice::Normal => memmap2::Advice::Normal,
            SupportedAdvice::Random => memmap2::Advice::Random,
            SupportedAdvice::Sequential => memmap2::Advice::Sequential,
        },
    )
}

/// What the two failures of giving advice are, and when each comes: unsupported
/// advice is refused before the system is asked, and every other failure is the
/// system's.
pub open spec fn advised(advice: Advice, result: Result<(), MmapError>) -> bool {
    match result {
        Ok(_) => !(advice is PopulateRead),
        Err(MmapError::Unsupported) => advice is PopulateRead,
        Err(MmapError::Io(_)) => !(advice is PopulateRead),
    }
}

/// A mapping that the system can be advised about.
pub trait Madviseable {
    /// Advises the system how this mapping will be accessed.
    fn madvise(&self, advice: Advice) -> (result: Result<(), MmapError>)
        ensures
            advised(advice, result),
    ;
}

impl Madviseable for memmap2::Mmap {
    fn madvise(&self, advice: Advice) -> (result: Result<(), MmapError>) {
        match SupportedAdvice::try_from(advice) {
            Ok(supported) => io_outcome(advise_map(self, supported)),
            Err(error) => Err(error),
        }
    }
}

impl Madviseable for memmap2::MmapMut {
    fn madvise(&self, advice: Advice) -> (result: Result<(), MmapError>) {
        match SupportedAdvice::try_from(advice) {
            Ok(supported) => io_outcome(advise_map_mut(self, supported)),
            Err(error) => Err(error),
        }
    }
}

impl Madviseable for Region {
    fn madvise(&self, advice: Advice) -> (result: Result<(), MmapError>) {
        self.mapping().madvise(advice)
    }
}

impl<T: PlainData> Madviseable for MmapType<T> {
    fn madvise(&self, advice: Advice) -> (result: Result<(), MmapError>) {
        self.region().madvise(advice)
    }
}

impl<T: PlainData> Madviseable for MmapSlice<T> {
    fn madvise(&self, advice: Advice) -> (result: Result<(), MmapError>) {
        self.region().madvise(advice)
    }
}

impl Madviseable for MmapBitSlice {
    fn madvise(&self, advice: Advice) -> (result: Result<(), MmapError>) {
        self.region().madvise(advice)
    }
}

/// Advises the system how `madviseable` will be accessed.
pub fn madvise<M: Madviseable>(madviseable: &M, advice: Advice) -> (result: Result<(), MmapError>)
    ensures
        advised(advice, result),
{
    madviseable.madvise(advice)
}

/// Trusted: `parking_lot::RawRwLock`, the lock underneath, opaque to the verifier.
#[verifier::external_type_specification]
#[verifier::external_body]
pub struct ExRawRwLock(parking_lot::RawRwLock);

/// Trusted: `lock_api::RwLock`, of which `parking_lot::RwLock` is an instance,
/// opaque to the verifier.
#[verifier::external_type_specification]
#[verifier::external_body]
#[verifier::reject_recursive_types(R)]
#[verifier::reject_recursive_types(T)]
pub struct ExRwLock<R, T: ?Sized>(parking_lot::lock_api::RwLock<R, T>);

/// The advice that a lock was made around: what `parking_lot::RwLock::new` was given.
/// It is the first thing the lock holds, and says nothing of what was stored since.
pub uninterp spec fn made_around(lock: parking_lot::RwLock<Advice>) -> Advice;

/// Trusted: `parking_lot::RwLock::new` makes an unlocked lock around the value it
/// is given.
#[verifier::external_body]
fn lock_new(advice: Advice) -> (lock: parking_lot::RwLock<Advice>)
    ensures
        made_around(lock) == advice,
{
    parking_lot::RwLock::new(advice)
}

/// Trusted: `parking_lot::RwLock::read` waits for shared access and gives the value
/// held then. Any thread may have stored it, so nothing is promised of it.
#[verifier::external_body]
fn lock_load(lock: &parking_lot::RwLock<Advice>) -> (advice: Advice) {
    *lock.read()
}

/// Trusted: `parking_lot::RwLock::write` waits for exclusive access, under which the
/// value is replaced.
#[verifier::external_body]
fn lock_store(lock: &parking_lot::RwLock<Advice>, advice: Advice) {
    *lock.write() = advice;
}

/// The cell that holds the advice applied by default. It is shared between
/// threads: reads are frequent, writes are rare and expected at start-up only.
pub struct AdviceCell {
    lock: parking_lot::RwLock<Advice>,
}

impl AdviceCell {
    /// The advice the cell held when it was made, before anything was stored in it.
    pub closed spec fn initial(&self) -> Advice {
        made_around(self.lock)
    }

    /// A cell that starts out holding the default advice, [`Advice::Random`].
    pub fn new() -> (cell: AdviceCell)
        ensures
            cell.initial() == Advice::Random,
    {
        AdviceCell { lock: lock_new(Advice::default()) }
    }
}

/// Stores `advice` as the default. Set it before any mapping is made and leave it
/// alone afterwards.
pub fn set_global(cell: &AdviceCell, advice: Advice) {
    lock_store(&cell.lock, advice);
}

/// The default advice as it stands now.
pub fn get_global(cell: &AdviceCell) -> (advice: Advice) {
    lock_load(&cell.lock)
}

} // verus!
