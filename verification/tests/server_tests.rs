use tss_core::common::{Entry, PartySignup, TaskRecord};
use tss_core::errors::ServerRejection;
use tss_core::server::{bearer_token_of, signup_step, ServerState, Store};

fn keygen_task() -> TaskRecord {
    TaskRecord { task_type: String::from("keygeneration"), status: String::from("created") }
}

fn sign_task() -> TaskRecord {
    TaskRecord { task_type: String::from("signing"), status: String::from("created") }
}

fn fresh_server() -> ServerState {
    ServerState::new(String::from("uuid-keygen-0"), String::from("uuid-sign-0"))
}

#[test]
fn get_after_set_returns_value() {
    let mut store = Store::new();
    store.set(String::from("k1"), String::from("v1"));
    store.set(String::from("k2"), String::from("v2"));
    assert_eq!(store.get(&String::from("k1")), Some(String::from("v1")));
    assert_eq!(store.get(&String::from("k2")), Some(String::from("v2")));
    assert_eq!(store.get(&String::from("k3")), None);
}

#[test]
fn set_overwrites_under_same_key() {
    let mut store = Store::new();
    store.set(String::from("k"), String::from("old"));
    store.set(String::from("k"), String::from("new"));
    assert_eq!(store.get(&String::from("k")), Some(String::from("new")));
}

#[test]
fn set_without_authorization_is_forbidden() {
    let mut server = fresh_server();
    let entry = Entry { key: String::from("round1-1-u"), value: String::from("payload") };
    let r = server.handle_set(false, entry);
    assert_eq!(r, Err(ServerRejection::Forbidden));
}

#[test]
fn set_with_token_stores_round_key() {
    let mut server = fresh_server();
    let key = String::from("round1-1-9d8f3b2a");
    let entry = Entry { key: key.clone(), value: String::from("commitment-payload") };
    assert_eq!(server.handle_set(true, entry), Ok(()));
    let got = server.handle_get(true, &key).unwrap().unwrap();
    assert_eq!(got.key, key);
    assert_eq!(got.value, String::from("commitment-payload"));
}

#[test]
fn get_without_authorization_is_forbidden() {
    let server = fresh_server();
    let r = server.handle_get(false, &String::from("any"));
    assert!(matches!(r, Err(ServerRejection::Forbidden)));
}

#[test]
fn get_missing_key_answers_none() {
    let server = fresh_server();
    let r = server.handle_get(true, &String::from("absent")).unwrap();
    assert!(r.is_none());
}

#[test]
fn signup_step_counts_within_session() {
    let cur = PartySignup { number: 1, uuid: String::from("u0") };
    let next = signup_step(&cur, 3, String::from("fresh"));
    assert_eq!(next.number, 2);
    assert_eq!(next.uuid, String::from("u0"));
}

#[test]
fn signup_step_wraps_with_fresh_uuid() {
    let cur = PartySignup { number: 3, uuid: String::from("u0") };
    let next = signup_step(&cur, 3, String::from("fresh"));
    assert_eq!(next.number, 1);
    assert_eq!(next.uuid, String::from("fresh"));
}

#[test]
fn signup_keygen_counts_then_wraps() {
    let mut server = fresh_server();
    let task = keygen_task();
    let first = server
        .signup_keygen(true, &task, 3, String::from("f1"), true)
        .unwrap();
    assert_eq!(first.number, 1);
    let session_uuid = first.uuid.clone();
    let second = server
        .signup_keygen(true, &task, 3, String::from("f2"), true)
        .unwrap();
    assert_eq!(second.number, 2);
    assert_eq!(second.uuid, session_uuid);
    let third = server
        .signup_keygen(true, &task, 3, String::from("f3"), true)
        .unwrap();
    assert_eq!(third.number, 3);
    assert_eq!(third.uuid, session_uuid);
    let fourth = server
        .signup_keygen(true, &task, 3, String::from("f4"), true)
        .unwrap();
    assert_eq!(fourth.number, 1);
    assert_eq!(fourth.uuid, String::from("f4"));
    assert_ne!(fourth.uuid, session_uuid);
}

#[test]
fn signup_keygen_without_token_is_forbidden() {
    let mut server = fresh_server();
    let r = server.signup_keygen(false, &keygen_task(), 3, String::from("f"), true);
    assert!(matches!(r, Err(ServerRejection::Forbidden)));
}

#[test]
fn signup_keygen_rejects_completed_task() {
    let mut server = fresh_server();
    let task = TaskRecord {
        task_type: String::from("keygeneration"),
        status: String::from("completed"),
    };
    let r = server.signup_keygen(true, &task, 3, String::from("f"), true);
    assert!(matches!(r, Err(ServerRejection::BadRequest)));
}

#[test]
fn signup_keygen_rejects_signing_task() {
    let mut server = fresh_server();
    let r = server.signup_keygen(true, &sign_task(), 3, String::from("f"), true);
    assert!(matches!(r, Err(ServerRejection::BadRequest)));
}

#[test]
fn signup_sign_rejects_keygen_task() {
    let mut server = fresh_server();
    let r = server.signup_sign(true, &keygen_task(), 1, String::from("f"), true);
    assert!(matches!(r, Err(ServerRejection::BadRequest)));
}

#[test]
fn signup_spawn_failure_is_service_unavailable() {
    let mut server = fresh_server();
    let r = server.signup_keygen(true, &keygen_task(), 3, String::from("f"), false);
    assert!(matches!(r, Err(ServerRejection::ServiceUnavailable)));
}

#[test]
fn signup_sign_bound_is_threshold_plus_one() {
    let mut server = fresh_server();
    let task = sign_task();
    let first = server.signup_sign(true, &task, 1, String::from("g1"), true).unwrap();
    let second = server.signup_sign(true, &task, 1, String::from("g2"), true).unwrap();
    assert_eq!(first.number, 1);
    assert_eq!(second.number, 2);
    assert_eq!(second.uuid, first.uuid);
    let third = server.signup_sign(true, &task, 1, String::from("g3"), true).unwrap();
    assert_eq!(third.number, 1);
    assert_eq!(third.uuid, String::from("g3"));
}

#[test]
fn bearer_token_extraction() {
    assert_eq!(bearer_token_of("Bearer abc123"), Some(String::from("abc123")));
    assert_eq!(bearer_token_of("Bearer "), Some(String::from("")));
    assert_eq!(bearer_token_of("Basic abc123"), None);
    assert_eq!(bearer_token_of(""), None);
    assert_eq!(bearer_token_of("Bearer"), None);
}
