//! Error types of the protocol core.
//!
//! The signaling server rejects a request with a `ServerRejection`; a party's
//! round function fails with a `RoundFailure` naming the round it was
//! processing and the kind of fault.

use vstd::prelude::*;

verus! {

/// How the signaling server refuses a request: a missing or invalid bearer
/// token, a task whose type or status does not match the signup, or a failure
/// to launch the server-side counterparty process.
#[derive(Clone, Copy, Debug, PartialEq, Eq, Structural)]
pub enum ServerRejection {
    Forbidden,
    BadRequest,
    ServiceUnavailable,
}

/// The kind of fault that ends a round: a malformed or missing peer message,
/// a rejected cryptographic sub-step (commitment, VSS, zero-knowledge proof,
/// AEAD authentication), or a final signature that does not verify.
#[derive(Clone, Copy, Debug, PartialEq, Eq, Structural)]
pub enum FailureKind {
    Transport,
    Protocol,
    SignatureVerify,
}

/// A failed round, tagged with the number of the round label under which the
/// party was exchanging messages when the fault occurred.
#[derive(Clone, Copy, Debug, PartialEq, Eq, Structural)]
pub struct RoundFailure {
    pub round: u8,
    pub kind: FailureKind,
}

} // verus!
