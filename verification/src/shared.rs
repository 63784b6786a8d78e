//! Reader/writer locks around the resources that requests share.
//!
//! What a lock guards is changed only through the library's own functions,
//! none of which panics, so it is whole whenever the lock can be had. A lock
//! that a panic elsewhere has poisoned is therefore taken all the same: one
//! failed critical section does not close a resource to later callers.

use std::sync::{RwLock, RwLockReadGuard, RwLockWriteGuard};
use vstd::prelude::*;

verus! {

/// `std::sync::RwLock`: many readers or one writer at a time. Nothing is
/// known of what it guards at any moment.
#[verifier::external_type_specification]
#[verifier::external_body]
#[verifier::reject_recursive_types(T)]
pub struct ExRwLock<T: ?Sized>(RwLock<T>);

/// `std::sync::RwLockReadGuard`: the lock held for reading until the guard
/// is dropped.
#[verifier::external_type_specification]
#[verifier::external_body]
#[verifier::reject_recursive_types(T)]
pub struct ExRwLockReadGuard<'a, T: ?Sized>(RwLockReadGuard<'a, T>);

/// `std::sync::RwLockWriteGuard`: the lock held for writing until the guard
/// is dropped.
#[verifier::external_type_specification]
#[verifier::external_body]
#[verifier::reject_recursive_types(T)]
pub struct ExRwLockWriteGuard<'a, T: ?Sized + 'a>(RwLockWriteGuard<'a, T>);

/// `RwLock::new`: a lock that guards `value`. Other threads may change what
/// the lock guards at any time, so nothing is claimed of it.
#[verifier::external_body]
pub(crate) fn new_lock<T>(value: T) -> (lock: RwLock<T>) {
    RwLock::new(value)
}

/// `RwLock::read`: waits until no writer holds the lock and takes it for
/// reading; a poisoned lock is taken through `PoisonError::into_inner`.
#[verifier::external_body]
pub(crate) fn read_lock<'a, T>(lock: &'a RwLock<T>) -> (guard: RwLockReadGuard<'a, T>) {
    match lock.read() {
        Ok(guard) => guard,
        Err(poisoned) => poisoned.into_inner(),
    }
}

/// `RwLock::write`: waits until nobody else holds the lock and takes it for
/// writing; a poisoned lock is taken through `PoisonError::into_inner`.
#[verifier::external_body]
pub(crate) fn write_lock<'a, T>(lock: &'a RwLock<T>) -> (guard: RwLockWriteGuard<'a, T>) {
    match lock.write() {
        Ok(guard) => guard,
        Err(poisoned) => poisoned.into_inner(),
    }
}

/// `Deref::deref` of a read guard: what the lock guards, to read.
#[verifier::external_body]
pub(crate) fn read_guarded<'a, 'b, T>(guard: &'a RwLockReadGuard<'b, T>) -> (value: &'a T) {
    guard
}

/// `DerefMut::deref_mut` of a write guard: what the lock guards, to change.
#[verifier::external_body]
pub(crate) fn write_guarded<'a, 'b, T>(guard: &'a mut RwLockWriteGuard<'b, T>) -> (value:
    &'a mut T) {
    guard
}

} // verus!
