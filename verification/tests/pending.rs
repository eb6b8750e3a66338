use pending_tracker::{PeerAddr, PeerSet, Pending};
use tokio::sync::oneshot;
use tokio::sync::oneshot::error::TryRecvError;

#[derive(Clone, Copy, PartialEq, Eq, Hash, Debug)]
struct Item {
    id: usize,
}

fn local(port: u16) -> PeerAddr {
    PeerAddr::from(([127, 0, 0, 1], port))
}

fn peers(addrs: &[PeerAddr]) -> PeerSet {
    PeerSet::from_vec(addrs.to_vec())
}

fn check_bulk(count: usize) {
    let pending = Pending::<Item>::new();
    for i in 0..count {
        pending.insert(Item { id: i }, local(i as u16), None);
    }
    assert_eq!(pending.len(), count);
    assert!(!pending.is_empty());
    assert!(!pending.contains(Item { id: count + 1 }));
    assert_eq!(pending.get(Item { id: count + 1 }), None);
    assert!(!pending.remove(Item { id: count + 1 }));
    for i in 0..count {
        assert!(pending.contains(Item { id: i }));
        let peer_ip = local(i as u16);
        assert!(pending.contains_peer(Item { id: i }, peer_ip));
        assert_eq!(pending.get(Item { id: i }), Some(peers(&[peer_ip])));
        assert!(pending.remove(Item { id: i }));
    }
    assert!(pending.is_empty());
}

#[test]
fn test_pending_one_item() {
    check_bulk(1);
}

#[test]
fn test_pending_many_items() {
    check_bulk(257);
    check_bulk(4999);
}

#[test]
fn empty_on_construction() {
    let pending = Pending::<u64>::new();
    assert_eq!(pending.len(), 0);
    assert!(pending.is_empty());
    let by_default = Pending::<u64>::default();
    assert_eq!(by_default.len(), 0);
    assert!(by_default.is_empty());
}

#[test]
fn insert_then_query() {
    let pending = Pending::<u64>::new();
    pending.insert(7u64, local(4130), None);
    assert!(pending.contains(7u64));
    assert!(pending.contains_peer(7u64, local(4130)));
    assert!(!pending.contains_peer(7u64, local(4131)));
    assert!(!pending.contains_peer(8u64, local(4130)));
    assert_eq!(pending.get(7u64), Some(peers(&[local(4130)])));
    assert_eq!(pending.len(), 1);
    assert!(!pending.is_empty());
}

#[test]
fn multi_peer_accumulation() {
    let pending = Pending::<u64>::new();
    pending.insert(7u64, local(1), None);
    pending.insert(7u64, local(2), None);
    pending.insert(7u64, local(3), None);
    assert_eq!(pending.get(7u64), Some(peers(&[local(3), local(1), local(2)])));
    assert_eq!(pending.get(7u64).map(|set| set.len()), Some(3));
    assert_eq!(pending.len(), 1);
}

#[test]
fn idempotent_peer_insert() {
    let pending = Pending::<u64>::new();
    pending.insert(7u64, local(1), None);
    pending.insert(7u64, local(1), None);
    assert_eq!(pending.get(7u64), Some(peers(&[local(1)])));
    assert_eq!(pending.get(7u64).map(|set| set.len()), Some(1));
    assert_eq!(pending.len(), 1);
}

#[test]
fn remove_clears_and_reports() {
    let pending = Pending::<u64>::new();
    pending.insert(7u64, local(1), None);
    pending.insert(7u64, local(2), None);
    assert!(pending.remove(7u64));
    assert!(!pending.contains(7u64));
    assert!(!pending.contains_peer(7u64, local(1)));
    assert_eq!(pending.get(7u64), None);
    assert_eq!(pending.len(), 0);
    assert!(!pending.remove(7u64));
}

#[test]
fn removal_on_absent_item() {
    let pending = Pending::<u64>::new();
    pending.insert(7u64, local(1), None);
    assert!(!pending.remove(8u64));
    assert!(!pending.contains(8u64));
    assert_eq!(pending.get(8u64), None);
    assert_eq!(pending.len(), 1);
    assert_eq!(pending.get(7u64), Some(peers(&[local(1)])));
}

#[test]
fn waiter_fan_out() {
    let pending = Pending::<u64>::new();
    let (s1, mut r1) = oneshot::channel::<()>();
    let (s2, mut r2) = oneshot::channel::<()>();
    let (s3, mut r3) = oneshot::channel::<()>();
    pending.insert(7u64, local(1), Some(s1));
    pending.insert(7u64, local(2), Some(s2));
    pending.insert(7u64, local(1), Some(s3));

    // Nothing fires before the removal.
    assert_eq!(r1.try_recv(), Err(TryRecvError::Empty));
    assert_eq!(r2.try_recv(), Err(TryRecvError::Empty));
    assert_eq!(r3.try_recv(), Err(TryRecvError::Empty));

    assert!(pending.remove(7u64));

    // Each signal was fired, and a signal fires once.
    assert_eq!(r1.try_recv(), Ok(()));
    assert_eq!(r2.try_recv(), Ok(()));
    assert_eq!(r3.try_recv(), Ok(()));
    assert_eq!(r1.try_recv(), Err(TryRecvError::Closed));
    assert_eq!(r2.try_recv(), Err(TryRecvError::Closed));
    assert_eq!(r3.try_recv(), Err(TryRecvError::Closed));
}

#[test]
fn waiter_fires_only_for_its_item() {
    let pending = Pending::<u64>::new();
    let (s1, mut r1) = oneshot::channel::<()>();
    let (s2, mut r2) = oneshot::channel::<()>();
    pending.insert(7u64, local(1), Some(s1));
    pending.insert(8u64, local(1), Some(s2));
    assert!(pending.remove(8u64));
    assert_eq!(r1.try_recv(), Err(TryRecvError::Empty));
    assert_eq!(r2.try_recv(), Ok(()));
    assert!(pending.remove(7u64));
    assert_eq!(r1.try_recv(), Ok(()));
}

#[test]
fn abandoned_waiter_safety() {
    let pending = Pending::<u64>::new();
    let (s1, mut r1) = oneshot::channel::<()>();
    let (s2, r2) = oneshot::channel::<()>();
    let (s3, mut r3) = oneshot::channel::<()>();
    pending.insert(7u64, local(1), Some(s1));
    pending.insert(7u64, local(1), Some(s2));
    pending.insert(7u64, local(1), Some(s3));
    drop(r2);
    assert!(pending.remove(7u64));
    assert_eq!(r1.try_recv(), Ok(()));
    assert_eq!(r3.try_recv(), Ok(()));
    assert!(!pending.contains(7u64));
}

#[test]
fn signal_registered_after_removal_waits_for_the_next_one() {
    let pending = Pending::<u64>::new();
    let (s1, mut r1) = oneshot::channel::<()>();
    pending.insert(7u64, local(1), Some(s1));
    assert!(pending.remove(7u64));
    assert_eq!(r1.try_recv(), Ok(()));

    let (s2, mut r2) = oneshot::channel::<()>();
    pending.insert(7u64, local(2), Some(s2));
    assert_eq!(r2.try_recv(), Err(TryRecvError::Empty));
    assert_eq!(pending.get(7u64), Some(peers(&[local(2)])));
    assert!(pending.remove(7u64));
    assert_eq!(r2.try_recv(), Ok(()));
}

#[test]
fn removal_of_absent_item_fires_its_waiters() {
    // A removal reports `false` for an item that is not pending, and wakes
    // nobody when nobody waits.
    let pending = Pending::<u64>::new();
    assert!(!pending.remove(7u64));
    let (s1, mut r1) = oneshot::channel::<()>();
    pending.insert(7u64, local(1), Some(s1));
    assert!(!pending.remove(8u64));
    assert_eq!(r1.try_recv(), Err(TryRecvError::Empty));
}

#[test]
fn independence_across_identifiers() {
    let pending = Pending::<u64>::new();
    pending.insert(1u64, local(1), None);
    pending.insert(2u64, local(2), None);
    pending.insert(1u64, local(3), None);
    assert_eq!(pending.get(2u64), Some(peers(&[local(2)])));
    assert!(pending.remove(1u64));
    assert_eq!(pending.get(2u64), Some(peers(&[local(2)])));
    assert!(pending.contains_peer(2u64, local(2)));
    assert_eq!(pending.len(), 1);
}

#[test]
fn clones_share_the_tables() {
    let pending = Pending::<u64>::new();
    let other = pending.clone();
    pending.insert(1u64, local(1), None);
    assert!(other.contains(1u64));
    assert!(other.remove(1u64));
    assert!(pending.is_empty());
}

#[test]
fn items_convert_into_the_identifier() {
    let pending = Pending::<u64>::new();
    pending.insert(7u32, local(1), None);
    assert!(pending.contains(7u8));
    assert!(pending.contains_peer(7u16, local(1)));
    assert_eq!(pending.get(7u32), Some(peers(&[local(1)])));
    assert!(pending.remove(7u64));
}

fn runtime() -> tokio::runtime::Runtime {
    tokio::runtime::Builder::new_multi_thread().worker_threads(4).build().unwrap()
}

#[test]
fn concurrent_bulk() {
    const CALLERS: usize = 8;
    const EACH: usize = 500;
    let pending = Pending::<Item>::new();
    let runtime = runtime();

    let inserters: Vec<tokio::task::JoinHandle<()>> = (0..CALLERS)
        .map(|caller| {
            let pending = pending.clone();
            runtime.spawn_blocking(move || {
                for i in 0..EACH {
                    let id = caller * EACH + i;
                    pending.insert(Item { id }, local(id as u16), None);
                }
            })
        })
        .collect();
    for inserter in inserters {
        runtime.block_on(inserter).unwrap();
    }

    assert_eq!(pending.len(), CALLERS * EACH);
    for id in 0..CALLERS * EACH {
        assert!(pending.contains(Item { id }));
        assert!(pending.contains_peer(Item { id }, local(id as u16)));
        assert_eq!(pending.get(Item { id }), Some(peers(&[local(id as u16)])));
    }

    // Every item is removed by two callers at once: one of them is told that
    // it removed the item, the other that there was nothing to remove.
    let removers: Vec<tokio::task::JoinHandle<usize>> = (0..2 * CALLERS)
        .map(|caller| {
            let pending = pending.clone();
            runtime.spawn_blocking(move || {
                let block = caller / 2;
                let mut removed = 0;
                for i in 0..EACH {
                    if pending.remove(Item { id: block * EACH + i }) {
                        removed += 1;
                    }
                }
                removed
            })
        })
        .collect();
    let mut removed = 0;
    for remover in removers {
        removed += runtime.block_on(remover).unwrap();
    }
    assert_eq!(removed, CALLERS * EACH);
    assert!(pending.is_empty());
}

#[test]
fn concurrent_waiters_are_all_woken() {
    const WAITERS: usize = 64;
    let pending = Pending::<u64>::new();
    let runtime = runtime();
    let mut receivers = Vec::new();
    let mut callers = Vec::new();
    for i in 0..WAITERS {
        let (sender, receiver) = oneshot::channel::<()>();
        receivers.push(receiver);
        let pending = pending.clone();
        callers.push(runtime.spawn_blocking(move || {
            pending.insert(9u64, local(i as u16), Some(sender));
        }));
    }
    for caller in callers {
        runtime.block_on(caller).unwrap();
    }
    assert_eq!(pending.get(9u64).map(|set| set.len()), Some(WAITERS));
    assert!(pending.remove(9u64));
    for mut receiver in receivers {
        assert_eq!(receiver.try_recv(), Ok(()));
    }
}
