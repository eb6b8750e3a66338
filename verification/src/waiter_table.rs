//! The waiter table: which completion signals wait for each item.

use crate::model::{waiting_for, with_waiter};
use crate::signal::Signal;
use std::collections::HashMap;
use std::hash::Hash;
use vstd::prelude::*;
use vstd::std_specs::hash::obeys_key_model;

verus! {

broadcast use vstd::std_specs::hash::group_hash_axioms;

/// The map from an item to the completion signals registered for it, in the
/// order of their registration.
///
/// Signals stay in the table until the item is taken out: nothing expires
/// them, and a signal whose receiver gave up stays like any other.
///
/// The contracts hold for an item type `T` that obeys the key model of hash
/// tables: its hash is deterministic and its `==` is identity.
#[derive(Debug)]
pub struct WaiterTable<T> {
    queues: HashMap<T, Vec<Signal>>,
}

impl<T> View for WaiterTable<T> {
    type V = Map<T, Seq<Signal>>;

    closed spec fn view(&self) -> Map<T, Seq<Signal>> {
        self.queues@.map_values(|queue: Vec<Signal>| queue@)
    }
}

impl<T: Copy + Eq + Hash> WaiterTable<T> {
    /// The empty table.
    pub fn new() -> (table: Self)
        ensures
            table@ == Map::<T, Seq<Signal>>::empty(),
    {
        WaiterTable { queues: HashMap::new() }
    }

    /// The number of signals that wait for `item`.
    pub fn waiting(&self, item: T) -> (n: usize)
        ensures
            obeys_key_model::<T>() ==> n == waiting_for(self@, item).len(),
    {
        match self.queues.get(&item) {
            Some(queue) => queue.len(),
            None => 0,
        }
    }

    /// Registers `signal` for `item`, behind the signals that already wait for
    /// it. The item need not be pending.
    pub fn register(&mut self, item: T, signal: Signal)
        ensures
            obeys_key_model::<T>() ==> final(self)@ == with_waiter(old(self)@, item, signal),
    {
        let queue = self.queues.entry(item).or_insert(Vec::new());
        queue.push(signal);
    }

    /// Takes out all the signals that wait for `item`, in the order of their
    /// registration; none when nothing waits for it.
    pub fn take(&mut self, item: T) -> (signals: Vec<Signal>)
        ensures
            obeys_key_model::<T>() ==> {
                &&& final(self)@ == old(self)@.remove(item)
                &&& signals@ == waiting_for(old(self)@, item)
            },
    {
        match self.queues.remove(&item) {
            Some(queue) => queue,
            None => Vec::new(),
        }
    }
}

} // verus!
