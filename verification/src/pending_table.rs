//! The pending table: which peers are known to hold each item in flight.

use crate::addr::PeerAddr;
use crate::model::{has_peer, lookup, sound, with_peer};
use crate::peer_set::PeerSet;
use std::collections::HashMap;
use std::hash::Hash;
use vstd::prelude::*;
use vstd::std_specs::hash::obeys_key_model;

verus! {

broadcast use {vstd::std_specs::hash::group_hash_axioms, PeerSet::lemma_finite};

/// The peers known to hold one pending item: the peer that made the item
/// pending, and those recorded after it. Held in this shape, the peers of a
/// pending item cannot be none.
#[derive(Debug)]
struct Holders {
    first: PeerAddr,
    others: PeerSet,
}

impl Holders {
    /// All the peers: the first and the others.
    spec fn all(self) -> Set<PeerAddr> {
        self.others@.insert(self.first)
    }
}

/// The map from each pending item to the peers known to hold it.
///
/// An item is in the table exactly while it is in flight. Its set of peers is
/// never empty and only grows until the item is removed.
///
/// The contracts hold for an item type `T` that obeys the key model of hash
/// tables: its hash is deterministic and its `==` is identity.
#[derive(Debug)]
pub struct PendingTable<T> {
    entries: HashMap<T, Holders>,
}

impl<T> View for PendingTable<T> {
    type V = Map<T, Set<PeerAddr>>;

    closed spec fn view(&self) -> Map<T, Set<PeerAddr>> {
        self.entries@.map_values(|holders: Holders| holders.all())
    }
}

impl<T: Copy + Eq + Hash> PendingTable<T> {
    /// Every table is sound: its pending items are finitely many, and each
    /// has a finite set of peers that is not empty.
    pub broadcast proof fn lemma_sound(self)
        ensures
            #[trigger] sound(self@),
    {
        assert(self@.dom() =~= self.entries@.dom());
    }

    /// The empty table.
    pub fn new() -> (table: Self)
        ensures
            table@ == Map::<T, Set<PeerAddr>>::empty(),
    {
        PendingTable { entries: HashMap::new() }
    }

    /// Whether no item is pending.
    pub fn is_empty(&self) -> (empty: bool)
        ensures
            empty == (self@.dom().len() == 0),
            empty == (self@ == Map::<T, Set<PeerAddr>>::empty()),
    {
        proof {
            assert(self@.dom() =~= self.entries@.dom());
            if self.entries@.dom().len() == 0 {
                assert(self.entries@ =~= Map::empty());
            }
            if self.entries@ == Map::<T, Holders>::empty() {
                assert(self@ =~= Map::<T, Set<PeerAddr>>::empty());
            }
        }
        self.entries.is_empty()
    }

    /// The number of pending items.
    pub fn len(&self) -> (n: usize)
        ensures
            obeys_key_model::<T>() ==> n == self@.dom().len(),
    {
        proof {
            assert(self@.dom() =~= self.entries@.dom());
        }
        self.entries.len()
    }

    /// Whether `item` is pending.
    pub fn contains(&self, item: T) -> (pending: bool)
        ensures
            obeys_key_model::<T>() ==> pending == self@.contains_key(item),
    {
        self.entries.contains_key(&item)
    }

    /// Whether `item` is pending and `peer` is known to hold it.
    pub fn contains_peer(&self, item: T, peer: PeerAddr) -> (known: bool)
        ensures
            obeys_key_model::<T>() ==> known == has_peer(self@, item, peer),
    {
        match self.entries.get(&item) {
            Some(holders) => holders.first == peer || holders.others.contains(peer),
            None => false,
        }
    }

    /// A copy of the peers known to hold `item`, or `None` when `item` is not
    /// pending.
    pub fn get(&self, item: T) -> (peers: Option<PeerSet>)
        ensures
            obeys_key_model::<T>() ==> match peers {
                Some(set) => lookup(self@, item) == Some(set@),
                None => lookup(self@, item).is_none(),
            },
    {
        match self.entries.get(&item) {
            Some(holders) => {
                let mut set = holders.others.clone();
                set.insert(holders.first);
                Some(set)
            },
            None => None,
        }
    }

    /// Records that `peer` holds `item`. An item that was not pending becomes
    /// pending with `peer` alone; otherwise `peer` joins the peers already
    /// recorded, and recording it again changes nothing.
    pub fn insert(&mut self, item: T, peer: PeerAddr)
        ensures
            obeys_key_model::<T>() ==> final(self)@ == with_peer(old(self)@, item, peer),
    {
        let ghost before = self.entries@;
        let holders = self.entries.entry(item).or_insert(
            Holders { first: peer, others: PeerSet::new() },
        );
        if holders.first != peer {
            holders.others.insert(peer);
        }
        proof {
            if obeys_key_model::<T>() {
                assert(self.entries@[item].all() =~= (if before.contains_key(item) {
                    before[item].all().insert(peer)
                } else {
                    set![peer]
                }));
            }
        }
    }

    /// Takes `item` out of the table, with all its peers. Returns whether
    /// `item` was pending.
    pub fn remove(&mut self, item: T) -> (was_pending: bool)
        ensures
            obeys_key_model::<T>() ==> {
                &&& final(self)@ == old(self)@.remove(item)
                &&& was_pending == old(self)@.contains_key(item)
            },
    {
        self.entries.remove(&item).is_some()
    }
}

} // verus!
