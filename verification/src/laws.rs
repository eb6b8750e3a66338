//! What holds of the tracker's operations, whatever the items, the peers and
//! the signals are. Each statement is made over the model of the tables, in
//! the terms in which the executable operations are specified.

use crate::addr::PeerAddr;
use crate::model::{
    has_peer, lookup, peers_of, record_all, remove_all, sound, waiting_for, with_peer, with_waiter,
};
use vstd::prelude::*;

verus! {

/// In a table in which nothing was recorded no item is pending: the number of
/// pending items is zero and every query answers that the item is absent.
pub proof fn law_empty_on_construction<T>(item: T, peer: PeerAddr)
    ensures
        sound(Map::<T, Set<PeerAddr>>::empty()),
        Map::<T, Set<PeerAddr>>::empty().dom().len() == 0,
        !Map::<T, Set<PeerAddr>>::empty().contains_key(item),
        !has_peer(Map::<T, Set<PeerAddr>>::empty(), item, peer),
        lookup(Map::<T, Set<PeerAddr>>::empty(), item).is_none(),
{
}

/// Recording a peer keeps a sound table sound.
pub proof fn law_insert_keeps_sound<T>(table: Map<T, Set<PeerAddr>>, item: T, peer: PeerAddr)
    requires
        sound(table),
    ensures
        sound(with_peer(table, item, peer)),
{
}

/// Removing an item keeps a sound table sound.
pub proof fn law_remove_keeps_sound<T>(table: Map<T, Set<PeerAddr>>, item: T)
    requires
        sound(table),
    ensures
        sound(table.remove(item)),
{
}

/// After a peer was recorded for an item that was not pending, the item is
/// pending, the peer is known to hold it, the peers of the item are that peer
/// alone, and one more item is pending than before: one, if none was.
pub proof fn law_insert_then_query<T>(table: Map<T, Set<PeerAddr>>, item: T, peer: PeerAddr)
    requires
        sound(table),
        !table.contains_key(item),
    ensures
        with_peer(table, item, peer).contains_key(item),
        has_peer(with_peer(table, item, peer), item, peer),
        lookup(with_peer(table, item, peer), item) == Some(set![peer]),
        with_peer(table, item, peer).dom().len() == table.dom().len() + 1,
        table == Map::<T, Set<PeerAddr>>::empty() ==> with_peer(table, item, peer).dom().len()
            == 1,
{
}

/// A peer recorded for an item that is pending joins the peers already known:
/// none of them is lost, and the number of pending items stays as it was.
pub proof fn law_insert_only_grows<T>(table: Map<T, Set<PeerAddr>>, item: T, peer: PeerAddr)
    requires
        sound(table),
        table.contains_key(item),
    ensures
        lookup(with_peer(table, item, peer), item) == Some(table[item].insert(peer)),
        table[item].subset_of(peers_of(with_peer(table, item, peer), item)),
        with_peer(table, item, peer).dom() == table.dom(),
{
}

/// Three peers recorded for an item that was not pending, in three steps, are
/// the peers of that item afterwards, and the three steps made one item
/// pending, not three.
pub proof fn law_peers_accumulate<T>(
    table: Map<T, Set<PeerAddr>>,
    item: T,
    first: PeerAddr,
    second: PeerAddr,
    third: PeerAddr,
)
    requires
        sound(table),
        !table.contains_key(item),
    ensures
        lookup(with_peer(with_peer(with_peer(table, item, first), item, second), item, third), item)
            == Some(set![first, second, third]),
        with_peer(with_peer(with_peer(table, item, first), item, second), item, third).dom().len()
            == table.dom().len() + 1,
{
}

/// Recording the same peer for the same item a second time changes nothing.
pub proof fn law_insert_idempotent<T>(table: Map<T, Set<PeerAddr>>, item: T, peer: PeerAddr)
    ensures
        with_peer(with_peer(table, item, peer), item, peer) == with_peer(table, item, peer),
{
    let once = with_peer(table, item, peer);
    assert(once[item].insert(peer) =~= once[item]);
}

/// Removing a pending item reports that it was pending and leaves it absent:
/// no query finds it, one item fewer is pending, and a second removal reports
/// that there was nothing to remove.
pub proof fn law_remove_clears<T>(table: Map<T, Set<PeerAddr>>, item: T, peer: PeerAddr)
    requires
        sound(table),
        table.contains_key(item),
    ensures
        !table.remove(item).contains_key(item),
        !has_peer(table.remove(item), item, peer),
        lookup(table.remove(item), item).is_none(),
        table.remove(item).dom().len() == table.dom().len() - 1,
        table.remove(item).remove(item) == table.remove(item),
{
}

/// Removing an item that is not pending reports so and changes nothing.
pub proof fn law_remove_absent<T>(table: Map<T, Set<PeerAddr>>, item: T)
    requires
        !table.contains_key(item),
    ensures
        table.remove(item) == table,
        !table.remove(item).contains_key(item),
        lookup(table.remove(item), item).is_none(),
{
}

/// Signals registered for an item wait in the order of their registration,
/// behind those that waited before; registering fires none of them. Taking
/// the item out of the waiter table leaves nothing waiting for it.
pub proof fn law_waiters_in_order<T, S>(
    queue: Map<T, Seq<S>>,
    item: T,
    first: S,
    second: S,
    third: S,
)
    ensures
        waiting_for(
            with_waiter(with_waiter(with_waiter(queue, item, first), item, second), item, third),
            item,
        ) == waiting_for(queue, item) + seq![first, second, third],
        waiting_for(
            with_waiter(with_waiter(with_waiter(queue, item, first), item, second), item, third)
                .remove(item),
            item,
        ) == Seq::<S>::empty(),
{
}

/// What is done for one item leaves every other item as it was, in the pending
/// table and in the waiter table alike.
pub proof fn law_items_independent<T, S>(
    table: Map<T, Set<PeerAddr>>,
    queue: Map<T, Seq<S>>,
    item: T,
    other: T,
    peer: PeerAddr,
    signal: S,
)
    requires
        item != other,
    ensures
        lookup(with_peer(table, item, peer), other) == lookup(table, other),
        lookup(table.remove(item), other) == lookup(table, other),
        waiting_for(with_waiter(queue, item, signal), other) == waiting_for(queue, other),
        waiting_for(queue.remove(item), other) == waiting_for(queue, other),
{
}

/// The items of the reports `reports`.
pub open spec fn items_of<T>(reports: Seq<(T, PeerAddr)>) -> Seq<T> {
    reports.map_values(|report: (T, PeerAddr)| report.0)
}

/// After reports on distinct items were recorded in an empty table, as many
/// items are pending as there were reports, they are the items of the
/// reports, and each has the peer of its report, and that peer alone.
pub proof fn law_bulk_insert<T>(reports: Seq<(T, PeerAddr)>)
    requires
        items_of(reports).no_duplicates(),
    ensures
        sound(record_all(Map::empty(), reports)),
        record_all(Map::empty(), reports).dom() == items_of(reports).to_set(),
        record_all(Map::empty(), reports).dom().len() == reports.len(),
        forall|i: int|
            0 <= i < reports.len() ==> lookup(
                record_all(Map::empty(), reports),
                (#[trigger] reports[i]).0,
            ) == Some(set![reports[i].1]),
    decreases reports.len(),
{
    let empty = Map::<T, Set<PeerAddr>>::empty();
    let items = items_of(reports);
    if reports.len() > 0 {
        let rest = reports.drop_last();
        let last = reports.last();
        assert(items_of(rest) =~= items.drop_last());
        law_bulk_insert(rest);
        let before = record_all(empty, rest);
        let after = record_all(empty, reports);
        assert(!before.contains_key(last.0)) by {
            if items.drop_last().to_set().contains(last.0) {
                let j = choose|j: int|
                    0 <= j < items.drop_last().len() && items.drop_last()[j] == last.0;
                assert(items[j] == items[items.len() - 1]);
            }
        }
        law_insert_then_query(before, last.0, last.1);
        law_insert_keeps_sound(before, last.0, last.1);
        assert(items.to_set() =~= items.drop_last().to_set().insert(last.0)) by {
            items.drop_last().lemma_push_to_set_commute(last.0);
            assert(items.drop_last().push(last.0) =~= items);
        }
        assert forall|i: int| 0 <= i < reports.len() implies lookup(
            after,
            (#[trigger] reports[i]).0,
        ) == Some(set![reports[i].1]) by {
            if i < reports.len() - 1 {
                assert(before.contains_key(rest[i].0));
            }
        }
    }
}

/// When every pending item is removed, by whomever and in whatever order,
/// no item is pending in the end, and of the removals of one item the first
/// reports that the item was pending, and no other does.
pub proof fn law_bulk_remove<T>(table: Map<T, Set<PeerAddr>>, order: Seq<T>)
    requires
        table.dom().subset_of(order.to_set()),
    ensures
        remove_all(table, order) == Map::<T, Set<PeerAddr>>::empty(),
        remove_all(table, order).dom().len() == 0,
        forall|i: int|
            0 <= i < order.len() ==> (remove_all(table, order.take(i)).contains_key(
                #[trigger] order[i],
            ) <==> table.contains_key(order[i]) && !order.take(i).contains(order[i])),
{
    lemma_remove_all_dom(table, order);
    assert(remove_all(table, order) =~= Map::<T, Set<PeerAddr>>::empty());
    assert forall|i: int| 0 <= i < order.len() implies (remove_all(
        table,
        order.take(i),
    ).contains_key(#[trigger] order[i]) <==> table.contains_key(order[i]) && !order.take(
        i,
    ).contains(order[i])) by {
        lemma_remove_all_dom(table, order.take(i));
    }
}

/// Removing items takes exactly those items out of the table.
proof fn lemma_remove_all_dom<T>(table: Map<T, Set<PeerAddr>>, items: Seq<T>)
    ensures
        remove_all(table, items).dom() == table.dom().difference(items.to_set()),
        forall|item: T| #[trigger]
            remove_all(table, items).contains_key(item) ==> remove_all(table, items)[item]
                == table[item],
    decreases items.len(),
{
    if items.len() > 0 {
        lemma_remove_all_dom(table, items.drop_last());
        items.drop_last().lemma_push_to_set_commute(items.last());
        assert(items.drop_last().push(items.last()) =~= items);
    }
}

} // verus!
