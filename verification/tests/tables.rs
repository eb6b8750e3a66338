use pending_tracker::{
    notify_all, tally, DPCPredicate, PeerAddr, PeerSet, PendingTable, Signal, WaiterTable,
};
use tokio::sync::oneshot;
use tokio::sync::oneshot::error::TryRecvError;

fn local(port: u16) -> PeerAddr {
    PeerAddr::from(([127, 0, 0, 1], port))
}

#[test]
fn address_from_octets() {
    assert_eq!(PeerAddr::from_octets([127, 0, 0, 1], 1234), PeerAddr::V4 { ip4: 0x7f00_0001, port: 1234 });
    assert_eq!(PeerAddr::from_octets([0, 0, 0, 0], 0), PeerAddr::V4 { ip4: 0, port: 0 });
    assert_eq!(
        PeerAddr::from_octets([255, 255, 255, 255], 65535),
        PeerAddr::V4 { ip4: u32::MAX, port: 65535 }
    );
    assert_eq!(PeerAddr::from_octets([1, 2, 3, 4], 80), PeerAddr::V4 { ip4: 16909060, port: 80 });
    assert_eq!(PeerAddr::from(([1, 2, 3, 4], 80)), PeerAddr::from_octets([1, 2, 3, 4], 80));
}

#[test]
fn addresses_differ_by_each_part() {
    let base = PeerAddr::from_octets([10, 0, 0, 1], 4130);
    assert_ne!(base, PeerAddr::from_octets([10, 0, 0, 2], 4130));
    assert_ne!(base, PeerAddr::from_octets([10, 0, 1, 1], 4130));
    assert_ne!(base, PeerAddr::from_octets([10, 1, 0, 1], 4130));
    assert_ne!(base, PeerAddr::from_octets([11, 0, 0, 1], 4130));
    assert_ne!(base, PeerAddr::from_octets([10, 0, 0, 1], 4131));
    let six = PeerAddr::V6 { ip6: 0x0a00_0001, port: 4130, flowinfo: 0, scope_id: 0 };
    assert_ne!(base, six);
    assert_ne!(six, PeerAddr::V6 { ip6: 0x0a00_0001, port: 4130, flowinfo: 1, scope_id: 0 });
    assert_ne!(six, PeerAddr::V6 { ip6: 0x0a00_0001, port: 4130, flowinfo: 0, scope_id: 1 });
}

#[test]
fn peer_set_holds_each_address_once() {
    let mut set = PeerSet::new();
    assert!(set.is_empty());
    assert_eq!(set.len(), 0);
    assert!(!set.contains(local(1)));
    assert!(set.insert(local(1)));
    assert!(!set.insert(local(1)));
    assert!(set.insert(local(2)));
    assert_eq!(set.len(), 2);
    assert!(!set.is_empty());
    assert!(set.contains(local(1)));
    assert!(set.contains(local(2)));
    assert!(!set.contains(local(3)));
}

#[test]
fn peer_set_equality_ignores_order_and_repetition() {
    let a = PeerSet::from_vec(vec![local(1), local(2), local(3)]);
    let b = PeerSet::from_vec(vec![local(3), local(1), local(2), local(1)]);
    let c = PeerSet::from_vec(vec![local(1), local(2)]);
    let d = PeerSet::from_vec(vec![local(1), local(2), local(4)]);
    assert_eq!(a, b);
    assert_eq!(b.len(), 3);
    assert_ne!(a, c);
    assert_ne!(c, a);
    assert_ne!(a, d);
    assert_eq!(PeerSet::new(), PeerSet::from_vec(Vec::new()));
    assert!(c.is_subset(&a));
    assert!(!a.is_subset(&c));
    assert!(!d.is_subset(&a));
    assert!(PeerSet::new().is_subset(&c));
}

#[test]
fn peer_set_copies() {
    let a = PeerSet::from_vec(vec![local(1), local(2)]);
    let mut b = a.clone();
    assert_eq!(a, b);
    b.insert(local(3));
    assert_ne!(a, b);
    assert_eq!(a.len(), 2);
    let mut listed = a.to_vec();
    listed.sort_by_key(|addr| match addr {
        PeerAddr::V4 { port, .. } => *port,
        PeerAddr::V6 { port, .. } => *port,
    });
    assert_eq!(listed, vec![local(1), local(2)]);
}

#[test]
fn pending_table_follows_its_model() {
    let mut table = PendingTable::<u64>::new();
    assert!(table.is_empty());
    assert_eq!(table.len(), 0);
    assert_eq!(table.get(1), None);

    table.insert(1, local(1));
    assert!(table.contains(1));
    assert!(table.contains_peer(1, local(1)));
    assert!(!table.contains_peer(1, local(2)));
    assert!(!table.contains_peer(2, local(1)));
    assert_eq!(table.get(1), Some(PeerSet::from_vec(vec![local(1)])));
    assert_eq!(table.len(), 1);

    table.insert(1, local(2));
    table.insert(1, local(2));
    table.insert(2, local(1));
    assert_eq!(table.get(1), Some(PeerSet::from_vec(vec![local(2), local(1)])));
    assert_eq!(table.get(2), Some(PeerSet::from_vec(vec![local(1)])));
    assert_eq!(table.len(), 2);
    assert!(!table.is_empty());

    assert!(table.remove(1));
    assert!(!table.remove(1));
    assert!(!table.remove(3));
    assert!(!table.contains(1));
    assert_eq!(table.get(1), None);
    assert_eq!(table.get(2), Some(PeerSet::from_vec(vec![local(1)])));
    assert_eq!(table.len(), 1);
    assert!(table.remove(2));
    assert!(table.is_empty());
}

#[test]
fn waiter_table_keeps_the_order_of_registration() {
    let mut table = WaiterTable::<u64>::new();
    assert_eq!(table.waiting(1), 0);
    assert!(table.take(1).is_empty());

    // The second receiver is given up before anything is fired.
    let (s1, mut r1) = oneshot::channel::<()>();
    let (s2, r2) = oneshot::channel::<()>();
    let (s3, mut r3) = oneshot::channel::<()>();
    let (s4, mut r4) = oneshot::channel::<()>();
    table.register(1, s1);
    table.register(1, s2);
    table.register(2, s4);
    table.register(1, s3);
    drop(r2);
    assert_eq!(table.waiting(1), 3);
    assert_eq!(table.waiting(2), 1);
    assert_eq!(r1.try_recv(), Err(TryRecvError::Empty));

    let signals: Vec<Signal> = table.take(1);
    assert_eq!(table.waiting(1), 0);
    assert_eq!(table.waiting(2), 1);
    assert_eq!(signals.len(), 3);
    // The signals come out as they went in: the abandoned one is the second.
    assert!(!signals[0].is_closed());
    assert!(signals[1].is_closed());
    assert!(!signals[2].is_closed());
    assert_eq!(r1.try_recv(), Err(TryRecvError::Empty));

    assert_eq!(notify_all(signals), 2);
    assert_eq!(r1.try_recv(), Ok(()));
    assert_eq!(r3.try_recv(), Ok(()));
    assert_eq!(r4.try_recv(), Err(TryRecvError::Empty));

    assert_eq!(notify_all(table.take(2)), 1);
    assert_eq!(r4.try_recv(), Ok(()));
    assert_eq!(notify_all(table.take(2)), 0);
    assert_eq!(notify_all(Vec::new()), 0);
}

#[test]
fn address_converts_from_a_pair() {
    let a: PeerAddr = ([192, 168, 0, 1], 8080).into();
    assert_eq!(a, PeerAddr::V4 { ip4: 0xc0a8_0001, port: 8080 });
}

#[test]
fn tally_counts_the_delivered() {
    assert_eq!(tally(0, true), 1);
    assert_eq!(tally(0, false), 0);
    assert_eq!(tally(41, true), 42);
    assert_eq!(tally(41, false), 41);
    assert_eq!(tally(usize::MAX, true), usize::MAX);
    assert_eq!(tally(usize::MAX, false), usize::MAX);
}

struct Components;

#[test]
fn predicate_is_known_by_its_identity() {
    let predicate = DPCPredicate::<Components>::new(vec![1, 2, 3]);
    assert_eq!(predicate.into_compact_repr(), vec![1, 2, 3]);
    assert_eq!(predicate.clone().into_compact_repr(), vec![1, 2, 3]);
    assert_eq!(DPCPredicate::<Components>::new(Vec::new()).into_compact_repr(), Vec::<u8>::new());
    assert_eq!(DPCPredicate::<Components>::default().into_compact_repr(), vec![0u8; 32]);
}
