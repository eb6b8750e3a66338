//! The tracker as it is shared between tasks.

use crate::addr::PeerAddr;
use crate::peer_set::PeerSet;
use crate::pending_table::PendingTable;
use crate::signal::{notify_all, Signal};
use crate::sync::{
    lock_guard_get_mut, mutex_lock, mutex_new, read_guard_get, rwlock_new, rwlock_read,
    rwlock_write, write_guard_get_mut,
};
use crate::waiter_table::WaiterTable;
use parking_lot::{Mutex, RwLock};
use std::hash::Hash;
use std::sync::Arc;
use vstd::prelude::*;
use vstd::std_specs::hash::obeys_key_model;

verus! {

/// The tracker of pending transmissions, as a handle that can be cloned and
/// handed to every task that needs it: all clones work on the same two tables.
///
/// The pending table stands behind a reader-writer lock, the waiter table
/// behind a mutex of its own, so that recording peers does not wait for the
/// firing of signals. A method takes the lock of a table, performs one
/// operation of that table, and lets the lock go before it takes another or
/// returns. What the operation does is stated at [`PendingTable`] and
/// [`WaiterTable`]; what follows for every interleaving of concurrent calls
/// is proved in [`crate::history`].
///
/// No contract of a method speaks of the tables: between two calls other
/// tasks may have changed them, and an answer describes the moment at which
/// the lock was held.
#[derive(Clone, Debug)]
#[verifier::reject_recursive_types(T)]
pub struct Pending<T> {
    /// The map of pending items to the peers that have the item.
    pending: Arc<RwLock<PendingTable<T>>>,
    /// The signals to fire when an item is removed.
    callbacks: Arc<Mutex<WaiterTable<T>>>,
}

impl<T: Copy + Eq + Hash> Pending<T> {
    /// A tracker in which nothing is pending and nothing waits.
    pub fn new() -> Self {
        Pending {
            pending: Arc::new(rwlock_new(PendingTable::new())),
            callbacks: Arc::new(mutex_new(WaiterTable::new())),
        }
    }

    /// Whether no item is pending.
    pub fn is_empty(&self) -> bool {
        let guard = rwlock_read(&self.pending);
        read_guard_get(&guard).is_empty()
    }

    /// The number of pending items.
    pub fn len(&self) -> usize {
        let guard = rwlock_read(&self.pending);
        read_guard_get(&guard).len()
    }

    /// Whether `item` is pending.
    pub fn contains(&self, item: impl Into<T>) -> bool {
        let item: T = item.into();
        let guard = rwlock_read(&self.pending);
        read_guard_get(&guard).contains(item)
    }

    /// Whether `item` is pending and `peer_ip` is known to hold it.
    pub fn contains_peer(&self, item: impl Into<T>, peer_ip: PeerAddr) -> bool {
        let item: T = item.into();
        let guard = rwlock_read(&self.pending);
        read_guard_get(&guard).contains_peer(item, peer_ip)
    }

    /// A copy of the peers known to hold `item`, or `None` when `item` is not
    /// pending. A set that is returned is never empty.
    pub fn get(&self, item: impl Into<T>) -> (peers: Option<PeerSet>)
        ensures
            obeys_key_model::<T>() ==> (peers matches Some(set) ==> set@.finite() && set@.len() > 0),
    {
        let item: T = item.into();
        let guard = rwlock_read(&self.pending);
        let table = read_guard_get(&guard);
        proof {
            table.lemma_sound();
        }
        table.get(item)
    }

    /// Records that `peer_ip` holds `item`, then registers `callback`, if one
    /// is given, to be fired when `item` is removed. The callback is
    /// registered whether `item` was pending before or not.
    pub fn insert(&self, item: impl Into<T>, peer_ip: PeerAddr, callback: Option<Signal>) {
        let item: T = item.into();
        // Insert the peer IP into the pending table.
        {
            let mut guard = rwlock_write(&self.pending);
            write_guard_get_mut(&mut guard).insert(item, peer_ip);
        }
        // If a callback is provided, insert it into the waiter table.
        if let Some(callback) = callback {
            let mut guard = mutex_lock(&self.callbacks);
            lock_guard_get_mut(&mut guard).register(item, callback);
        }
    }

    /// Removes `item` from the pending table, then takes the signals registered
    /// for it out of the waiter table and fires them, in the order of their
    /// registration and with no lock held. Returns whether `item` was
    /// pending. A signal whose receiver gave up is passed over.
    pub fn remove(&self, item: impl Into<T>) -> bool {
        let item: T = item.into();
        // Remove the item from the pending table.
        let was_pending = {
            let mut guard = rwlock_write(&self.pending);
            write_guard_get_mut(&mut guard).remove(item)
        };
        // Take the callbacks of the item out of the waiter table.
        let signals = {
            let mut guard = mutex_lock(&self.callbacks);
            lock_guard_get_mut(&mut guard).take(item)
        };
        // Send a notification to each callback.
        notify_all(signals);
        was_pending
    }
}

impl<T: Copy + Eq + Hash> Default for Pending<T> {
    fn default() -> Self {
        Self::new()
    }
}

} // verus!
