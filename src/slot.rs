//! The storage cell that the owner overwrites and readers copy out of.
//!
//! It is a `std::sync::RwLock`. Readers only ever try the lock and never
//! wait on it: a reader that finds the writer inside reports that it could
//! not take a copy. The writer holds the lock for one assignment of a `Copy`
//! value, so no reader ever sees a value that is half written; it may wait
//! for a reader that is in the middle of one copy.
use std::sync::RwLock;
use vstd::prelude::*;

verus! {

#[verifier::external_type_specification]
#[verifier::external_body]
#[verifier::reject_recursive_types(T)]
pub struct ExRwLock<T: ?Sized>(RwLock<T>);

/// Relies on `RwLock::new`: a new cell that holds `t`.
pub assume_specification<T>[ RwLock::<T>::new ](t: T) -> RwLock<T>;

/// Relies on `RwLock::try_read`, which never blocks: a copy of what the cell
/// holds, or `None` where the lock cannot be had at that moment (the writer
/// holds it or waits for it, or a panic poisoned it). What a
/// copy holds depends on the other threads, so nothing is stated of it.
#[verifier::external_body]
pub(crate) fn try_copy<T: Copy>(cell: &RwLock<T>) -> (r: Option<T>) {
    match cell.try_read() {
        Ok(guard) => Some(*guard),
        Err(_) => None,
    }
}

/// Relies on `RwLock::write`: replaces what the cell holds with `v`. A lock
/// poisoned by a panic elsewhere is still written through.
#[verifier::external_body]
pub(crate) fn overwrite<T>(cell: &RwLock<T>, v: T) {
    match cell.write() {
        Ok(mut guard) => *guard = v,
        Err(poisoned) => *poisoned.into_inner() = v,
    }
}

} // verus!
