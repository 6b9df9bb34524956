//! The change counter shared by a writer and its readers.
//!
//! The writer moves the counter from an even value to the next odd value
//! before it touches the stored value, and to the even value after that once
//! it is done. A reader samples the counter before and after it copies the
//! value, and trusts the copy only when both samples are the same even value.
use vstd::prelude::*;

verus! {

/// The counter one step after `c`; it wraps to zero at the top of `usize`.
pub open spec fn step(c: usize) -> usize {
    if c == usize::MAX {
        0
    } else {
        (c + 1) as usize
    }
}

/// No write is in flight while the counter is even.
pub open spec fn is_stable(c: usize) -> bool {
    c % 2 == 0
}

/// The counter while a write that started at `c` is in flight.
pub open spec fn entered(c: usize) -> usize {
    step(c)
}

/// The counter once a write that started at `c` is done.
pub open spec fn settled(c: usize) -> usize {
    step(step(c))
}

/// Two samples vouch for a read made between them when they are the same
/// even value: no write started or finished in the window.
pub open spec fn consistent(before: usize, after: usize) -> bool {
    before == after && is_stable(before)
}

/// What a read reports, given the counter sampled `before` it, the copy it
/// took (`None` where the value could not be copied), and the counter
/// sampled `after` it.
pub open spec fn outcome<T>(before: usize, seen: Option<T>, after: usize) -> Option<T> {
    if consistent(before, after) {
        seen
    } else {
        None
    }
}

/// Advances the counter by one step.
pub fn next(c: usize) -> (r: usize)
    ensures
        r == step(c),
{
    if c == usize::MAX {
        0
    } else {
        c + 1
    }
}

/// Tells whether two samples of the counter vouch for the read between them.
pub fn is_consistent(before: usize, after: usize) -> (r: bool)
    ensures
        r == consistent(before, after),
{
    before == after && before % 2 == 0
}

/// Decides a read from its two samples of the counter and the copy taken
/// between them: the copy where the samples vouch for it, `None` otherwise.
pub fn settle<T>(before: usize, seen: Option<T>, after: usize) -> (r: Option<T>)
    ensures
        r == outcome(before, seen, after),
{
    if is_consistent(before, after) {
        seen
    } else {
        None
    }
}

/// A write taken from a stable counter passes through an odd value and ends
/// on an even one, and the three values are pairwise distinct.
pub proof fn lemma_write_cycle(c: usize)
    requires
        is_stable(c),
    ensures
        !is_stable(entered(c)),
        is_stable(settled(c)),
        c != entered(c),
        c != settled(c),
        entered(c) != settled(c),
{
}

/// A read that no write overlaps sees the same even counter on both sides
/// and reports exactly the value it copied.
pub proof fn lemma_quiet_read<T>(c: usize, v: T)
    requires
        is_stable(c),
    ensures
        outcome(c, Some(v), c) == Some(v),
{
}

/// A read whose window holds any part of a write reports no value, whatever
/// it copied: a sample taken while the write is in flight, or samples taken
/// on both sides of the write, do not vouch for it.
pub proof fn lemma_overlapping_read_fails<T>(c: usize, seen: Option<T>)
    requires
        is_stable(c),
    ensures
        outcome(c, seen, entered(c)) is None,
        outcome(c, seen, settled(c)) is None,
        outcome(entered(c), seen, entered(c)) is None,
        outcome(entered(c), seen, settled(c)) is None,
        outcome(settled(c), seen, settled(c)) == seen,
{
}

/// A read never reports a value other than the one it copied: it reports
/// that copy or nothing.
pub proof fn lemma_outcome_is_copy<T>(before: usize, seen: Option<T>, after: usize)
    ensures
        outcome(before, seen, after) is None || outcome(before, seen, after) == seen,
{
}

} // verus!
