use tss_core::server::Store;
use tss_core::transport::{
    broadcast_key, collect_from_store, merge_own_at, p2p_key, poll_broadcast_targets,
    poll_p2p_targets,
};

#[test]
fn broadcast_key_layout() {
    assert_eq!(broadcast_key("round1", 1, "9d8f"), String::from("round1-1-9d8f"));
    assert_eq!(broadcast_key("round5", 12, "u-u"), String::from("round5-12-u-u"));
}

#[test]
fn p2p_key_layout() {
    assert_eq!(p2p_key("round3", 2, 1, "9d8f"), String::from("round3-2-1-9d8f"));
    assert_eq!(p2p_key("round2", 10, 3, "s"), String::from("round2-10-3-s"));
}

#[test]
fn poll_targets_skip_self_ascending() {
    let keys = poll_broadcast_targets(2, 4, "round1", "u");
    assert_eq!(keys.len(), 3);
    assert_eq!(keys[0], String::from("round1-1-u"));
    assert_eq!(keys[1], String::from("round1-3-u"));
    assert_eq!(keys[2], String::from("round1-4-u"));
}

#[test]
fn poll_p2p_targets_address_self() {
    let keys = poll_p2p_targets(3, 3, "round3", "u");
    assert_eq!(keys.len(), 2);
    assert_eq!(keys[0], String::from("round3-1-3-u"));
    assert_eq!(keys[1], String::from("round3-2-3-u"));
}

#[test]
fn collect_returns_payloads_in_sender_order() {
    let mut store = Store::new();
    store.set(String::from("round1-1-u"), String::from("a"));
    store.set(String::from("round1-3-u"), String::from("c"));
    let targets = poll_broadcast_targets(2, 3, "round1", "u");
    let got = collect_from_store(&store, &targets).unwrap();
    assert_eq!(got, vec![String::from("a"), String::from("c")]);
}

#[test]
fn under_quorum_poll_never_completes() {
    // Two live writers out of the three a t+1 = 3 quorum expects: the sweep
    // stays incomplete no matter how often it is repeated.
    let mut store = Store::new();
    store.set(String::from("round0-1-u"), String::from("a"));
    store.set(String::from("round0-2-u"), String::from("b"));
    let targets = poll_broadcast_targets(1, 4, "round0", "u");
    for _ in 0..100 {
        assert!(collect_from_store(&store, &targets).is_none());
    }
}

#[test]
fn merge_own_at_splices_in_place() {
    let peers = vec![String::from("p1"), String::from("p3")];
    let merged = merge_own_at(peers, 1, String::from("me"));
    assert_eq!(merged, vec![String::from("p1"), String::from("me"), String::from("p3")]);
    let merged_front = merge_own_at(
        vec![String::from("x"), String::from("y")],
        0,
        String::from("me"),
    );
    assert_eq!(merged_front[0], String::from("me"));
}
