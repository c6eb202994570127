//! A specification-level model of the pairwise key agreement of keygen
//! round 2.
//!
//! On the curve, party `i` derives its AES key for peer `j` from the
//! x-coordinate of `u_i · Y_j`, where `Y_j = u_j · G` is the point `j`
//! decommitted. In the exponent, `u_i · Y_j = (u_i · u_j) · G` and
//! `u_j · Y_i = (u_j · u_i) · G` are the same point, so both endpoints derive
//! the same key. The model represents a point by its discrete logarithm
//! modulo the group order; scalar multiplication is then multiplication in
//! the exponent, and the symmetry is proved from modular arithmetic alone.

use vstd::prelude::*;
use vstd::arithmetic::div_mod::lemma_mul_mod_noop_left;
use crate::crypto::secp256k1_order;

verus! {

/// The model point a party publishes for its ephemeral secret: the discrete
/// logarithm of `u · G`.
pub open spec fn model_pub_point(u: nat) -> nat {
    u % secp256k1_order()
}

/// The model of the shared point one endpoint computes: the peer's published
/// point, multiplied by the endpoint's own secret in the exponent. The
/// derived AES key is a function of this point alone (its x-coordinate,
/// left-padded to the key width), so equal shared points give equal keys.
pub open spec fn model_shared_point(peer_pub: nat, own_secret: nat) -> nat {
    (peer_pub * own_secret) % secp256k1_order()
}

/// The pairwise key is symmetric: the shared point party `i` computes from
/// `j`'s published point equals the one `j` computes from `i`'s, for any two
/// ephemeral secrets.
pub proof fn lemma_pairwise_key_symmetric(u_i: nat, u_j: nat)
    ensures
        model_shared_point(model_pub_point(u_j), u_i) == model_shared_point(
            model_pub_point(u_i),
            u_j,
        ),
{
    let q = secp256k1_order() as int;
    lemma_mul_mod_noop_left(u_j as int, u_i as int, q);
    lemma_mul_mod_noop_left(u_i as int, u_j as int, q);
    assert(u_j as int * u_i as int == u_i as int * u_j as int) by (nonlinear_arith);
}

} // verus!
