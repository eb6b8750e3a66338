//! Runs of the shared tracker, as sequences of atomic steps.
//!
//! A call of the shared tracker works on a table only while it holds the lock
//! of that table, so that every run of the tracker, however many tasks take
//! part in it, is a sequence of steps of four kinds: a peer is recorded, a
//! signal is registered, an item leaves the pending table, the signals of an
//! item are taken out to be fired. An insertion makes the first step and, when
//! it brings a signal, the second; a removal makes the third and the fourth.
//!
//! What is proved here holds of every such sequence, and so of every
//! interleaving of concurrent calls. The two steps of a removal may be
//! parted by the steps of other calls: for the peers of an item the moment of
//! a removal is the step at which the item leaves the pending table, for its
//! signals the step at which they are taken out.

use crate::addr::PeerAddr;
use crate::model::{has_peer, peers_of, waiting_for, with_peer, with_waiter};
use vstd::prelude::*;

verus! {

/// One atomic step on the tables of the tracker.
pub enum Step<T, S> {
    /// `peer` is recorded as holding `item`.
    Record { item: T, peer: PeerAddr },
    /// `signal` is registered to be fired when `item` is removed.
    Register { item: T, signal: S },
    /// `item` leaves the pending table.
    Clear { item: T },
    /// The signals registered for `item` leave the waiter table, to be fired.
    Take { item: T },
}

/// The two tables of the tracker at one moment.
#[verifier::reject_recursive_types(T)]
pub struct Tables<T, S> {
    pub pending: Map<T, Set<PeerAddr>>,
    pub waiters: Map<T, Seq<S>>,
}

/// The step that records `peer` as holding `item`.
pub open spec fn recording<T, S>(item: T, peer: PeerAddr) -> Step<T, S> {
    Step::Record { item, peer }
}

/// The step that registers `signal` for `item`.
pub open spec fn registering<T, S>(item: T, signal: S) -> Step<T, S> {
    Step::Register { item, signal }
}

/// The step that takes `item` out of the pending table.
pub open spec fn clearing<T, S>(item: T) -> Step<T, S> {
    Step::Clear { item }
}

/// The step that takes the signals of `item` out of the waiter table.
pub open spec fn taking<T, S>(item: T) -> Step<T, S> {
    Step::Take { item }
}

/// The tables of a tracker on which no step was made yet.
pub open spec fn fresh<T, S>() -> Tables<T, S> {
    Tables { pending: Map::empty(), waiters: Map::empty() }
}

/// The tables after `step` was made on `tables`.
pub open spec fn apply<T, S>(tables: Tables<T, S>, step: Step<T, S>) -> Tables<T, S> {
    match step {
        Step::Record { item, peer } => Tables {
            pending: with_peer(tables.pending, item, peer),
            waiters: tables.waiters,
        },
        Step::Register { item, signal } => Tables {
            pending: tables.pending,
            waiters: with_waiter(tables.waiters, item, signal),
        },
        Step::Clear { item } => Tables {
            pending: tables.pending.remove(item),
            waiters: tables.waiters,
        },
        Step::Take { item } => Tables {
            pending: tables.pending,
            waiters: tables.waiters.remove(item),
        },
    }
}

/// The tables after the steps of `steps` were made on `start`, one after the
/// other.
pub open spec fn run<T, S>(start: Tables<T, S>, steps: Seq<Step<T, S>>) -> Tables<T, S>
    decreases steps.len(),
{
    if steps.len() == 0 {
        start
    } else {
        apply(run(start, steps.drop_last()), steps.last())
    }
}

/// What a `Clear` of `item`, made on `tables`, reports: whether the item was
/// pending.
pub open spec fn reported<T, S>(tables: Tables<T, S>, item: T) -> bool {
    tables.pending.contains_key(item)
}

/// What a `Take` of `item`, made on `tables`, hands over to be fired.
pub open spec fn handed_over<T, S>(tables: Tables<T, S>, item: T) -> Seq<S> {
    waiting_for(tables.waiters, item)
}

/// The steps of an insertion: the peer is recorded, then the signal, if one
/// is given, is registered.
pub open spec fn insertion<T, S>(item: T, peer: PeerAddr, signal: Option<S>) -> Seq<Step<T, S>> {
    match signal {
        Some(signal) => seq![recording(item, peer), registering(item, signal)],
        None => seq![recording(item, peer)],
    }
}

/// The steps of a removal: the item leaves the pending table, then its
/// signals are taken out.
pub open spec fn removal<T, S>(item: T) -> Seq<Step<T, S>> {
    seq![clearing(item), taking(item)]
}

/// The peers that the steps of `steps` record for `item`.
pub open spec fn recorded_in<T, S>(steps: Seq<Step<T, S>>, item: T) -> Set<PeerAddr>
    decreases steps.len(),
{
    if steps.len() == 0 {
        Set::empty()
    } else {
        let earlier = recorded_in(steps.drop_last(), item);
        match steps.last() {
            Step::Record { item: recorded, peer } => if recorded == item {
                earlier.insert(peer)
            } else {
                earlier
            },
            _ => earlier,
        }
    }
}

/// The signals that the steps of `steps` register for `item`, in the order of
/// the steps.
pub open spec fn registered_in<T, S>(steps: Seq<Step<T, S>>, item: T) -> Seq<S>
    decreases steps.len(),
{
    if steps.len() == 0 {
        Seq::empty()
    } else {
        let earlier = registered_in(steps.drop_last(), item);
        match steps.last() {
            Step::Register { item: registered, signal } => if registered == item {
                earlier.push(signal)
            } else {
                earlier
            },
            _ => earlier,
        }
    }
}

/// Whether no step of `steps` takes `item` out of the pending table.
pub open spec fn never_cleared<T, S>(steps: Seq<Step<T, S>>, item: T) -> bool {
    forall|i: int| 0 <= i < steps.len() ==> #[trigger] steps[i] != clearing::<T, S>(item)
}

/// Whether no step of `steps` takes the signals of `item` out of the waiter
/// table.
pub open spec fn never_taken<T, S>(steps: Seq<Step<T, S>>, item: T) -> bool {
    forall|i: int| 0 <= i < steps.len() ==> #[trigger] steps[i] != taking::<T, S>(item)
}

/// A run can be cut in two: the second part goes on from where the first
/// part ended.
pub proof fn lemma_run_in_two_parts<T, S>(
    start: Tables<T, S>,
    first: Seq<Step<T, S>>,
    second: Seq<Step<T, S>>,
)
    ensures
        run(start, first + second) == run(run(start, first), second),
    decreases second.len(),
{
    if second.len() > 0 {
        assert((first + second).drop_last() =~= first + second.drop_last());
        lemma_run_in_two_parts(start, first, second.drop_last());
    }
}

/// A peer is recorded by some steps exactly when one of the steps records it.
pub proof fn lemma_recorded_by_a_step<T, S>(steps: Seq<Step<T, S>>, item: T, peer: PeerAddr)
    ensures
        recorded_in(steps, item).contains(peer) <==> exists|i: int|
            0 <= i < steps.len() && #[trigger] steps[i] == recording::<T, S>(item, peer),
    decreases steps.len(),
{
    if steps.len() > 0 {
        let earlier = steps.drop_last();
        lemma_recorded_by_a_step(earlier, item, peer);
        if exists|i: int|
            0 <= i < steps.len() && #[trigger] steps[i] == recording::<T, S>(item, peer) {
            let i = choose|i: int|
                0 <= i < steps.len() && #[trigger] steps[i] == recording::<T, S>(item, peer);
            if i < steps.len() - 1 {
                assert(earlier[i] == recording::<T, S>(item, peer));
            }
        }
    }
}

/// No peer is lost: as long as an item is not removed, the peers known to
/// hold it are those known at the start and those recorded since, and the
/// item is pending if it was at the start or a peer was recorded for it.
pub proof fn law_peers_kept_until_cleared<T, S>(
    start: Tables<T, S>,
    steps: Seq<Step<T, S>>,
    item: T,
)
    requires
        never_cleared(steps, item),
    ensures
        peers_of(run(start, steps).pending, item) == peers_of(start.pending, item).union(
            recorded_in(steps, item),
        ),
        run(start, steps).pending.contains_key(item) <==> start.pending.contains_key(item)
            || recorded_in(steps, item) != Set::<PeerAddr>::empty(),
    decreases steps.len(),
{
    if steps.len() > 0 {
        law_peers_kept_until_cleared(start, steps.drop_last(), item);
        match steps.last() {
            Step::Record { item: recorded, peer } => {
                if recorded == item {
                    assert(recorded_in(steps, item).contains(peer));
                }
            },
            _ => {},
        }
    }
}

/// No waiter is lost, and none overtakes another: as long as the signals of
/// an item are not taken out, the signals that wait for it are those that
/// waited at the start, followed by those registered since, in the order of
/// their registration.
pub proof fn law_waiters_kept_until_taken<T, S>(
    start: Tables<T, S>,
    steps: Seq<Step<T, S>>,
    item: T,
)
    requires
        never_taken(steps, item),
    ensures
        handed_over(run(start, steps), item) == handed_over(start, item) + registered_in(
            steps,
            item,
        ),
    decreases steps.len(),
{
    if steps.len() > 0 {
        law_waiters_kept_until_taken(start, steps.drop_last(), item);
    }
}

/// A removal ends what was known of its item: once an item has left the
/// pending table no peer is known to hold it, and once its signals were
/// taken out none waits for it, whatever was recorded and registered before.
pub proof fn law_removal_forgets<T, S>(tables: Tables<T, S>, item: T)
    ensures
        !reported(apply(tables, clearing(item)), item),
        peers_of(apply(tables, clearing(item)).pending, item) == Set::<PeerAddr>::empty(),
        handed_over(apply(tables, taking(item)), item) == Seq::<S>::empty(),
{
}

/// A peer recorded for an item is known to hold it at every later moment up
/// to the next removal of the item.
pub proof fn law_peer_known_until_removed<T, S>(
    start: Tables<T, S>,
    steps: Seq<Step<T, S>>,
    at: int,
    until: int,
    item: T,
    peer: PeerAddr,
)
    requires
        0 <= at < until <= steps.len(),
        steps[at] == recording::<T, S>(item, peer),
        forall|k: int| at < k < until ==> #[trigger] steps[k] != clearing::<T, S>(item),
    ensures
        has_peer(run(start, steps.take(until)).pending, item, peer),
{
    let head = steps.take(at + 1);
    let tail = steps.subrange(at + 1, until);
    assert(steps.take(until) =~= head + tail);
    lemma_run_in_two_parts(start, head, tail);
    law_peers_kept_until_cleared(run(start, head), tail, item);
}

/// A removal reports that its item was pending exactly when a peer was
/// recorded for the item since the removal before it, and the peers known at
/// that moment are those recorded since.
pub proof fn law_removal_reports_the_cycle<T, S>(
    start: Tables<T, S>,
    steps: Seq<Step<T, S>>,
    last: int,
    at: int,
    item: T,
)
    requires
        0 <= last < at <= steps.len(),
        steps[last] == clearing::<T, S>(item),
        forall|k: int| last < k < at ==> #[trigger] steps[k] != clearing::<T, S>(item),
    ensures
        reported(run(start, steps.take(at)), item) <==> recorded_in(
            steps.subrange(last + 1, at),
            item,
        ) != Set::<PeerAddr>::empty(),
        peers_of(run(start, steps.take(at)).pending, item) == recorded_in(
            steps.subrange(last + 1, at),
            item,
        ),
{
    let head = steps.take(last + 1);
    let tail = steps.subrange(last + 1, at);
    assert(steps.take(at) =~= head + tail);
    lemma_run_in_two_parts(start, head, tail);
    law_peers_kept_until_cleared(run(start, head), tail, item);
}

/// A removal fires the signals that were registered for its item since the
/// removal before it took the signals out, all of them, in the order of their
/// registration, and no others: neither one that an earlier removal fired,
/// nor one that is registered after this removal took its signals out, which
/// waits for the removal after this one.
pub proof fn law_removal_fires_the_cycle<T, S>(
    start: Tables<T, S>,
    steps: Seq<Step<T, S>>,
    last: int,
    at: int,
    item: T,
)
    requires
        0 <= last < at <= steps.len(),
        steps[last] == taking::<T, S>(item),
        forall|k: int| last < k < at ==> #[trigger] steps[k] != taking::<T, S>(item),
    ensures
        handed_over(run(start, steps.take(at)), item) == registered_in(
            steps.subrange(last + 1, at),
            item,
        ),
{
    let head = steps.take(last + 1);
    let tail = steps.subrange(last + 1, at);
    assert(steps.take(at) =~= head + tail);
    lemma_run_in_two_parts(start, head, tail);
    law_waiters_kept_until_taken(run(start, head), tail, item);
}

/// Three signals brought by three insertions for one item, with whatever
/// peers, wait until the item is removed. The removal finds the item pending
/// and fires the three signals in the order of their insertions, behind
/// those that waited before; after it nothing waits for the item and the
/// item is not pending, so that a second removal fires nothing.
pub proof fn law_waiter_fan_out<T, S>(
    start: Tables<T, S>,
    item: T,
    peers: (PeerAddr, PeerAddr, PeerAddr),
    signals: (S, S, S),
)
    ensures
        ({
            let inserted = run(
                start,
                insertion(item, peers.0, Some(signals.0)) + insertion(
                    item,
                    peers.1,
                    Some(signals.1),
                ) + insertion(item, peers.2, Some(signals.2)),
            );
            let removed = run(inserted, removal(item));
            &&& reported(inserted, item)
            &&& handed_over(inserted, item) == handed_over(start, item) + seq![
                signals.0,
                signals.1,
                signals.2,
            ]
            &&& handed_over(apply(inserted, clearing(item)), item) == handed_over(inserted, item)
            &&& !reported(removed, item)
            &&& handed_over(removed, item) == Seq::<S>::empty()
        }),
{
    reveal_with_fuel(run, 7);
}

} // verus!
