use retro_control::arbiter::{Arbiter, Decision, PeerAddr, Session};

const A: PeerAddr = PeerAddr::V4(0xC0A8_0001);
const B: PeerAddr = PeerAddr::V4(0xC0A8_0002);

#[test]
fn first_peer_is_accepted_with_id_zero() {
    let mut arbiter = Arbiter::new();
    assert_eq!(arbiter.current(), None);
    assert_eq!(arbiter.admit_peer(A), Decision::Accept { connection_id: 0 });
    assert_eq!(arbiter.current(), Some(Session { owner: A, connection_id: 0 }));
}

#[test]
fn same_address_continues_under_its_id() {
    let mut arbiter = Arbiter::new();
    arbiter.admit_peer(A);
    assert_eq!(arbiter.admit_peer(A), Decision::Accept { connection_id: 0 });
    assert_eq!(arbiter.admit_peer(A), Decision::Accept { connection_id: 0 });
    assert_eq!(arbiter.current(), Some(Session { owner: A, connection_id: 0 }));
}

#[test]
fn different_address_evicts_previous_owner() {
    let mut arbiter = Arbiter::new();
    arbiter.admit_peer(A);
    assert_eq!(
        arbiter.admit_peer(B),
        Decision::EvictPrevious { evicted_id: 0, connection_id: 1 }
    );
    assert_eq!(arbiter.current(), Some(Session { owner: B, connection_id: 1 }));
}

#[test]
fn stale_teardown_leaves_new_owner() {
    let mut arbiter = Arbiter::new();
    arbiter.admit_peer(A);
    arbiter.admit_peer(B);
    assert!(!arbiter.teardown(A, 0));
    assert_eq!(arbiter.current(), Some(Session { owner: B, connection_id: 1 }));
}

#[test]
fn own_teardown_clears_session() {
    let mut arbiter = Arbiter::new();
    arbiter.admit_peer(A);
    assert!(arbiter.teardown(A, 0));
    assert_eq!(arbiter.current(), None);
    assert!(!arbiter.teardown(A, 0));
}

#[test]
fn teardown_with_wrong_id_is_noop() {
    let mut arbiter = Arbiter::new();
    arbiter.admit_peer(A);
    assert!(!arbiter.teardown(A, 7));
    assert_eq!(arbiter.current(), Some(Session { owner: A, connection_id: 0 }));
}

#[test]
fn ids_keep_growing_after_teardown() {
    let mut arbiter = Arbiter::new();
    arbiter.admit_peer(A);
    arbiter.teardown(A, 0);
    assert_eq!(arbiter.admit_peer(A), Decision::Accept { connection_id: 1 });
    assert!(!arbiter.teardown(A, 0));
    assert_eq!(arbiter.current(), Some(Session { owner: A, connection_id: 1 }));
}

#[test]
fn v4_and_v6_addresses_differ() {
    let mut arbiter = Arbiter::new();
    arbiter.admit_peer(PeerAddr::V4(1));
    assert_eq!(
        arbiter.admit_peer(PeerAddr::V6(1)),
        Decision::EvictPrevious { evicted_id: 0, connection_id: 1 }
    );
}

#[test]
fn exhausted_counter_rejects_and_changes_nothing() {
    let mut arbiter = Arbiter::starting_at(u64::MAX - 1);
    assert_eq!(arbiter.admit_peer(A), Decision::Accept { connection_id: u64::MAX - 1 });
    assert_eq!(arbiter.admit_peer(B), Decision::Reject);
    assert_eq!(arbiter.current(), Some(Session { owner: A, connection_id: u64::MAX - 1 }));
    assert_eq!(arbiter.admit_peer(A), Decision::Accept { connection_id: u64::MAX - 1 });
    let mut free = Arbiter::starting_at(u64::MAX);
    assert_eq!(free.admit_peer(A), Decision::Reject);
    assert_eq!(free.current(), None);
}
