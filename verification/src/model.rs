//! The mathematical model of the tracker's two tables.
//!
//! The pending table is a map from an item to the set of peers known to hold
//! it; the waiter table is a map from an item to the sequence of completion
//! signals registered for it, oldest first. The functions here say what each
//! operation does to these maps; the executable tables are specified by them.

use crate::addr::PeerAddr;
use vstd::prelude::*;

verus! {

/// The peers recorded for `item`: none when `item` is not pending.
pub open spec fn peers_of<T>(table: Map<T, Set<PeerAddr>>, item: T) -> Set<PeerAddr> {
    if table.contains_key(item) {
        table[item]
    } else {
        Set::empty()
    }
}

/// The pending table after `peer` was recorded for `item`: the entry of `item`
/// gains `peer`, and is created if `item` was not pending.
pub open spec fn with_peer<T>(table: Map<T, Set<PeerAddr>>, item: T, peer: PeerAddr) -> Map<
    T,
    Set<PeerAddr>,
> {
    table.insert(item, peers_of(table, item).insert(peer))
}

/// What a query for the peers of `item` answers.
pub open spec fn lookup<T>(table: Map<T, Set<PeerAddr>>, item: T) -> Option<Set<PeerAddr>> {
    if table.contains_key(item) {
        Some(table[item])
    } else {
        None
    }
}

/// Whether `peer` is recorded for `item`.
pub open spec fn has_peer<T>(table: Map<T, Set<PeerAddr>>, item: T, peer: PeerAddr) -> bool {
    table.contains_key(item) && table[item].contains(peer)
}

/// A pending table is sound when every entry holds a finite, non-empty set of
/// peers and the items are finitely many.
pub open spec fn sound<T>(table: Map<T, Set<PeerAddr>>) -> bool {
    &&& table.dom().finite()
    &&& forall|item: T| #[trigger]
        table.contains_key(item) ==> table[item].finite() && table[item].len() > 0
}

/// The pending table after each report of `reports`, a pair of an item and a
/// peer that holds it, was recorded in turn.
pub open spec fn record_all<T>(table: Map<T, Set<PeerAddr>>, reports: Seq<(T, PeerAddr)>) -> Map<
    T,
    Set<PeerAddr>,
>
    decreases reports.len(),
{
    if reports.len() == 0 {
        table
    } else {
        with_peer(record_all(table, reports.drop_last()), reports.last().0, reports.last().1)
    }
}

/// The pending table after each item of `items` was removed in turn.
pub open spec fn remove_all<T>(table: Map<T, Set<PeerAddr>>, items: Seq<T>) -> Map<
    T,
    Set<PeerAddr>,
>
    decreases items.len(),
{
    if items.len() == 0 {
        table
    } else {
        remove_all(table, items.drop_last()).remove(items.last())
    }
}

/// The signals waiting for `item`, oldest first: none when nothing waits.
pub open spec fn waiting_for<T, S>(queue: Map<T, Seq<S>>, item: T) -> Seq<S> {
    if queue.contains_key(item) {
        queue[item]
    } else {
        Seq::empty()
    }
}

/// The waiter table after `signal` was registered for `item`: it goes behind
/// the signals that already wait for `item`.
pub open spec fn with_waiter<T, S>(queue: Map<T, Seq<S>>, item: T, signal: S) -> Map<T, Seq<S>> {
    queue.insert(item, waiting_for(queue, item).push(signal))
}

} // verus!
