//! Core of a threshold-ECDSA (GG18) client/coordinator system over secp256k1.
//!
//! The crate verifies the coordination logic of the protocol: the signaling
//! server's key-value store and signup counters, the transport key scheme,
//! and the per-party round state machines for distributed key generation and
//! distributed signing. Curve, Paillier and AEAD primitives are reached
//! through a small set of trusted wrappers over outside crates; everything
//! that arranges, splices, gates and checks protocol data is verified.

pub mod common;
pub mod crypto;
pub mod dh;
pub mod errors;
pub mod hexutil;
pub mod keygen;
pub mod numeric;
pub mod server;
pub mod sign;
pub mod transport;
