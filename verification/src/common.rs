//! Shared protocol data: storage entries, signup records, configuration.

use vstd::prelude::*;

verus! {

/// A record in the signaling server's key-value store. The key is an opaque
/// string of the form `{round}-{sender}[-{receiver}]-{uuid}`; the value is an
/// opaque, caller-serialized payload.
#[derive(Clone, Debug)]
pub struct Entry {
    pub key: String,
    pub value: String,
}

/// A party's position within a protocol session: a party number in
/// `1..=bound` and the session's UUID.
#[derive(Clone, Debug)]
pub struct PartySignup {
    pub number: u16,
    pub uuid: String,
}

/// The server's configuration: party count and threshold, as decimal strings.
#[derive(Clone, Debug)]
pub struct Params {
    pub parties: String,
    pub threshold: String,
}

/// The task record the external task service reports for a task id. A signup
/// is refused unless the record's type and status match the protocol kind.
#[derive(Clone, Debug)]
pub struct TaskRecord {
    pub task_type: String,
    pub status: String,
}

} // verus!
