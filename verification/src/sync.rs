//! The locks that guard the tracker's tables.
//!
//! The tables are shared between tasks behind the locks of `parking_lot`.
//! Nothing in this file is proved: each item says what it takes on trust of
//! the lock that it stands for. What a lock holds at a given moment depends on
//! what the other tasks did, so no contract here speaks of it. A lock is
//! acquired by blocking, and a task that waits for a lock which it holds
//! itself waits for ever: the tracker never takes a lock while it holds a
//! guard.

use parking_lot::{Mutex, MutexGuard, RwLock, RwLockReadGuard, RwLockWriteGuard};
use vstd::prelude::*;

verus! {

/// `parking_lot::RawRwLock`, the lock word of a reader-writer lock. Opaque.
#[verifier::external_type_specification]
#[verifier::external_body]
pub struct ExRawRwLock(parking_lot::RawRwLock);

/// `parking_lot::RawMutex`, the lock word of a mutex. Opaque.
#[verifier::external_type_specification]
#[verifier::external_body]
pub struct ExRawMutex(parking_lot::RawMutex);

/// `lock_api::RwLock`, of which `parking_lot::RwLock` is the instance with
/// `parking_lot::RawRwLock`. Opaque.
#[verifier::external_type_specification]
#[verifier::external_body]
#[verifier::reject_recursive_types(R)]
#[verifier::reject_recursive_types(T)]
pub struct ExRwLock<R, T: ?Sized>(parking_lot::lock_api::RwLock<R, T>);

/// `lock_api::Mutex`, of which `parking_lot::Mutex` is the instance with
/// `parking_lot::RawMutex`. Opaque.
#[verifier::external_type_specification]
#[verifier::external_body]
#[verifier::reject_recursive_types(R)]
#[verifier::reject_recursive_types(T)]
pub struct ExMutex<R, T: ?Sized>(parking_lot::lock_api::Mutex<R, T>);

/// Shared access to what a reader-writer lock holds: a
/// `parking_lot::RwLockReadGuard`, which gives the access up when it is
/// dropped. Opaque.
#[verifier::external_body]
#[verifier::reject_recursive_types(V)]
pub(crate) struct ReadGuard<'a, V> {
    guard: RwLockReadGuard<'a, V>,
}

/// Exclusive access to what a reader-writer lock holds: a
/// `parking_lot::RwLockWriteGuard`, which gives the access up when it is
/// dropped. Opaque.
#[verifier::external_body]
#[verifier::reject_recursive_types(V)]
pub(crate) struct WriteGuard<'a, V> {
    guard: RwLockWriteGuard<'a, V>,
}

/// Exclusive access to what a mutex holds: a `parking_lot::MutexGuard`, which
/// unlocks the mutex when it is dropped. Opaque.
#[verifier::external_body]
#[verifier::reject_recursive_types(V)]
pub(crate) struct LockGuard<'a, V> {
    guard: MutexGuard<'a, V>,
}

/// `parking_lot::RwLock::new`: a lock that nobody holds, around `value`.
#[verifier::external_body]
pub(crate) fn rwlock_new<V>(value: V) -> RwLock<V> {
    RwLock::new(value)
}

/// `parking_lot::RwLock::read`: waits until no writer holds the lock, then
/// returns shared access to what it holds.
#[verifier::external_body]
pub(crate) fn rwlock_read<'a, V>(lock: &'a RwLock<V>) -> ReadGuard<'a, V> {
    ReadGuard { guard: lock.read() }
}

/// `parking_lot::RwLock::write`: waits until nobody else holds the lock, then
/// returns exclusive access to what it holds.
#[verifier::external_body]
pub(crate) fn rwlock_write<'a, V>(lock: &'a RwLock<V>) -> WriteGuard<'a, V> {
    WriteGuard { guard: lock.write() }
}

/// `Deref::deref` of `parking_lot::RwLockReadGuard`: the value behind the
/// lock, to be read.
#[verifier::external_body]
pub(crate) fn read_guard_get<'a, 'b, V>(guard: &'a ReadGuard<'b, V>) -> &'a V {
    &*guard.guard
}

/// `DerefMut::deref_mut` of `parking_lot::RwLockWriteGuard`: the value behind
/// the lock, to be changed in place.
#[verifier::external_body]
pub(crate) fn write_guard_get_mut<'a, 'b, V>(guard: &'a mut WriteGuard<'b, V>) -> &'a mut V {
    &mut *guard.guard
}

/// `parking_lot::Mutex::new`: a mutex that nobody holds, around `value`.
#[verifier::external_body]
pub(crate) fn mutex_new<V>(value: V) -> Mutex<V> {
    Mutex::new(value)
}

/// `parking_lot::Mutex::lock`: waits until nobody holds the mutex, then
/// returns exclusive access to what it holds.
#[verifier::external_body]
pub(crate) fn mutex_lock<'a, V>(mutex: &'a Mutex<V>) -> LockGuard<'a, V> {
    LockGuard { guard: mutex.lock() }
}

/// `DerefMut::deref_mut` of `parking_lot::MutexGuard`: the value behind the
/// mutex, to be changed in place.
#[verifier::external_body]
pub(crate) fn lock_guard_get_mut<'a, 'b, V>(guard: &'a mut LockGuard<'b, V>) -> &'a mut V {
    &mut *guard.guard
}

} // verus!
