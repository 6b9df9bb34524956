//! The owner handle and the reader handle.
use crate::slot::{overwrite, try_copy};
use crate::version::{
    is_stable, lemma_quiet_read, lemma_write_cycle, next, outcome, settle, settled,
};
use std::sync::atomic::{AtomicUsize, Ordering};
use std::sync::{Arc, RwLock};
use vstd::prelude::*;

verus! {

/// The one writer of a guarded value. Only its holder can write, which
/// makes it the single writer of the shared counter and cell.
#[verifier::reject_recursive_types(T)]
pub struct Blockfree<T> {
    version: Arc<AtomicUsize>,
    cell: Arc<RwLock<T>>,
    count: usize,
    current: Ghost<T>,
}

/// A reader of the value that a [`Blockfree`] guards. It holds no state of
/// its own between reads; any number of them may read at once.
#[verifier::reject_recursive_types(T)]
pub struct Replica<T> {
    version: Arc<AtomicUsize>,
    cell: Arc<RwLock<T>>,
}

impl<T> View for Blockfree<T> {
    type V = T;

    /// The value last published by the owner.
    closed spec fn view(&self) -> T {
        self.current@
    }
}

impl<T> Blockfree<T> {
    /// Between two writes the counter that the owner last published is even.
    #[verifier::type_invariant]
    spec fn inv(self) -> bool {
        is_stable(self.count)
    }
}

impl<T: Copy> Blockfree<T> {
    /// The counter value that the owner last published.
    pub closed spec fn published(&self) -> usize {
        self.count
    }

    /// The counter and the cell of `other` are the very ones of this owner.
    pub closed spec fn shares_with(&self, other: &Blockfree<T>) -> bool {
        self.version == other.version && self.cell == other.cell
    }

    /// Guards `data`, with the counter at zero.
    pub fn new(data: T) -> (r: Self)
        ensures
            r@ == data,
            r.published() == 0,
            is_stable(r.published()),
    {
        let version = Arc::new(AtomicUsize::new(0));
        let cell = Arc::new(RwLock::new(data));
        Blockfree { version, cell, count: 0, current: Ghost(data) }
    }

    /// Publishes `data`. The counter goes to the odd value after the last
    /// published one, the cell is overwritten, and the counter goes on to the
    /// next even value. Readers that overlap any of this report no value.
    ///
    /// Readers never make the writer wait for the counter, but the cell's
    /// lock is taken for the overwrite: a reader that is copying the value at
    /// that moment holds the writer back until its copy is done.
    ///
    /// The contract speaks of the owner's own record of what it published;
    /// what other threads see of the shared counter and cell is the protocol
    /// that `settle` decides on.
    pub fn write(&mut self, data: T)
        ensures
            final(self)@ == data,
            final(self).published() == settled(old(self).published()),
            is_stable(final(self).published()),
            old(self).published() != final(self).published(),
            final(self).shares_with(old(self)),
    {
        proof {
            use_type_invariant(&*self);
            lemma_write_cycle(self.count);
        }
        let entering = next(self.count);
        self.version.store(entering, Ordering::SeqCst);
        overwrite(&self.cell, data);
        let done = next(entering);
        self.version.store(done, Ordering::SeqCst);
        self.count = done;
        self.current = Ghost(data);
    }

    /// A new reader of this value, sharing this owner's counter and cell.
    pub fn replica(&self) -> (r: Replica<T>)
        ensures
            r.reads(self),
            is_stable(self.published()),
    {
        proof {
            use_type_invariant(self);
        }
        Replica { version: self.version.clone(), cell: self.cell.clone() }
    }
}

/// A read that no write overlaps reports the value that the owner last
/// published: its two samples both see the counter that the owner published,
/// which is even for every owner (`new`, `write` and `replica` state it), and
/// what it copies is the published value. This holds of a fresh owner and of
/// an owner after any number of writes.
pub proof fn lemma_quiet_read_sees_published<T: Copy>(owner: Blockfree<T>)
    requires
        is_stable(owner.published()),
    ensures
        outcome(owner.published(), Some(owner@), owner.published()) == Some(owner@),
{
    lemma_quiet_read(owner.published(), owner@);
}

/// Readers of one owner that no write overlaps agree: each shares the
/// owner's counter and cell, and each reports the value that the owner last
/// published. What one reports does not depend on the other, so dropping
/// either leaves the other's reads as they were.
pub proof fn lemma_quiet_readers_agree<T: Copy>(
    owner: Blockfree<T>,
    first: Replica<T>,
    second: Replica<T>,
)
    requires
        is_stable(owner.published()),
        first.reads(&owner),
        second.reads(&owner),
    ensures
        first.shares_with(&second),
        outcome(owner.published(), Some(owner@), owner.published()) == Some(owner@),
{
    lemma_quiet_read(owner.published(), owner@);
}

/// A reader of an owner stays a reader of it across the owner's writes:
/// it keeps sharing the counter and the cell that the writes go to.
pub proof fn lemma_reader_survives_write<T: Copy>(
    reader: Replica<T>,
    before: Blockfree<T>,
    after: Blockfree<T>,
)
    requires
        reader.reads(&before),
        after.shares_with(&before),
    ensures
        reader.reads(&after),
{
}

impl<T: Copy> Replica<T> {
    /// This reader shares the counter and the cell of `owner`.
    pub closed spec fn reads(&self, owner: &Blockfree<T>) -> bool {
        self.version == owner.version && self.cell == owner.cell
    }

    /// This reader and `other` share one counter and one cell.
    pub closed spec fn shares_with(&self, other: &Replica<T>) -> bool {
        self.version == other.version && self.cell == other.cell
    }

    /// Samples the counter, copies the value, and samples the counter again.
    /// Returns the copy where both samples are the same even value, and
    /// `None` where a write overlapped the read. It never waits.
    ///
    /// What the samples and the copy are depends on the other threads; the
    /// decision on them is [`settle`], whose contract is exact.
    pub fn read(&self) -> Option<T> {
        let before = self.version.load(Ordering::SeqCst);
        let seen = try_copy(&self.cell);
        let after = self.version.load(Ordering::SeqCst);
        settle(before, seen, after)
    }
}

impl<T: Copy> Clone for Replica<T> {
    /// Another reader of the same value, sharing this one's counter and cell.
    fn clone(&self) -> (r: Self)
        ensures
            r.shares_with(self),
    {
        Replica { version: self.version.clone(), cell: self.cell.clone() }
    }
}

} // verus!
