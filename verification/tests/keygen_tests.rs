use tss_core::common::PartySignup;
use tss_core::errors::FailureKind;
use tss_core::keygen::{
    gg18_keygen_client_new_context, gg18_keygen_client_round1, gg18_keygen_client_round2,
    gg18_keygen_client_round3, gg18_keygen_client_round4, gg18_keygen_client_round5,
    keygen_round1_message, keygen_round2_message, keygen_round3_messages, keygen_round4_message,
    keygen_round5_message, DecomMsg, GG18KeygenClientContext, KeyPairOutcome, Round1Local,
    VssOutcome,
};

fn secret_bytes(v: u8) -> Vec<u8> {
    let mut b = vec![0u8; 32];
    b[31] = v;
    b
}

fn pubkey_of(secret: &[u8]) -> Vec<u8> {
    let sk = libsecp256k1::SecretKey::parse_slice(secret).unwrap();
    libsecp256k1::PublicKey::from_secret_key(&sk).serialize().to_vec()
}

fn party_secret(p: u16) -> Vec<u8> {
    secret_bytes(10 + p as u8)
}

fn party_point(p: u16) -> Vec<u8> {
    pubkey_of(&party_secret(p))
}

/// The share party `from` deals to party `to` (a stand-in for the VSS
/// output): a distinct 32-byte value per pair.
fn share(from: u16, to: u16) -> Vec<u8> {
    secret_bytes(100 + 10 * from as u8 + to as u8)
}

fn local_of(p: u16) -> Round1Local {
    Round1Local {
        party_keys: format!("keys-{}", p),
        own_secret: party_secret(p),
        bc_i: format!("bc-{}", p),
        decom_payload: format!("decom-{}", p),
        decom_point: party_point(p),
    }
}

fn ctx_after_round1(p: u16) -> GG18KeygenClientContext {
    let ctx = gg18_keygen_client_new_context(
        1,
        3,
        PartySignup { number: p, uuid: String::from("session") },
    );
    let peer_bc: Vec<String> = (1u16..=3).filter(|i| *i != p).map(|i| format!("bc-{}", i)).collect();
    gg18_keygen_client_round1(ctx, local_of(p), peer_bc)
}

fn ctx_after_round2(p: u16) -> GG18KeygenClientContext {
    let ctx = ctx_after_round1(p);
    let peer_decoms: Vec<DecomMsg> = (1u16..=3)
        .filter(|i| *i != p)
        .map(|i| DecomMsg { payload: format!("decom-{}", i), point: party_point(i) })
        .collect();
    let vss = VssOutcome {
        vss_scheme: format!("vss-{}", p),
        secret_shares: vec![share(p, 1), share(p, 2), share(p, 3)],
    };
    gg18_keygen_client_round2(ctx, peer_decoms, Some(vss)).unwrap()
}

#[test]
fn round1_splices_own_commitment() {
    for p in 1u16..=3 {
        let ctx = ctx_after_round1(p);
        let bc1 = ctx.bc1_vec.unwrap();
        assert_eq!(
            bc1,
            vec![String::from("bc-1"), String::from("bc-2"), String::from("bc-3")]
        );
    }
}

#[test]
fn round1_message_uses_round1_label() {
    let ctx = gg18_keygen_client_new_context(
        1,
        3,
        PartySignup { number: 2, uuid: String::from("u") },
    );
    let e = keygen_round1_message(&ctx, &local_of(2));
    assert_eq!(e.key, String::from("round1-2-u"));
    assert_eq!(e.value, String::from("bc-2"));
}

#[test]
fn round2_reconstructs_the_same_points_everywhere() {
    let expected = vec![party_point(1), party_point(2), party_point(3)];
    for p in 1u16..=3 {
        let ctx = ctx_after_round2(p);
        assert_eq!(ctx.point_vec.unwrap(), expected);
    }
}

#[test]
fn y_sum_identical_on_every_party() {
    let y1 = ctx_after_round2(1).y_sum.unwrap();
    let y2 = ctx_after_round2(2).y_sum.unwrap();
    let y3 = ctx_after_round2(3).y_sum.unwrap();
    assert_eq!(y1, y2);
    assert_eq!(y1, y3);
    assert_eq!(y1.len(), 65);
    // The fold agrees with adding the secrets in the exponent.
    assert_eq!(y1, pubkey_of(&secret_bytes(11 + 12 + 13)));
}

#[test]
fn pairwise_aes_keys_agree_between_endpoints() {
    let ctx1 = ctx_after_round2(1);
    let ctx2 = ctx_after_round2(2);
    let ctx3 = ctx_after_round2(3);
    let k1 = ctx1.enc_keys.unwrap();  // [key(1,2), key(1,3)]
    let k2 = ctx2.enc_keys.unwrap();  // [key(2,1), key(2,3)]
    let k3 = ctx3.enc_keys.unwrap();  // [key(3,1), key(3,2)]
    assert_eq!(k1[0], k2[0]);
    assert_eq!(k1[1], k3[0]);
    assert_eq!(k2[1], k3[1]);
    assert_eq!(k1[0].len(), 32);
}

#[test]
fn address_identical_and_hex_shaped() {
    let a1 = ctx_after_round2(1).public_key_address.unwrap();
    let a2 = ctx_after_round2(2).public_key_address.unwrap();
    assert_eq!(a1, a2);
    assert_eq!(a1.len(), 40);
    assert!(a1.chars().all(|c| c.is_ascii_hexdigit() && !c.is_ascii_uppercase()));
}

#[test]
fn round2_rejects_tampered_point() {
    let ctx = ctx_after_round1(1);
    let mut bad = party_point(2);
    bad[30] ^= 0xff;
    let peer_decoms = vec![
        DecomMsg { payload: String::from("decom-2"), point: bad },
        DecomMsg { payload: String::from("decom-3"), point: party_point(3) },
    ];
    let vss = VssOutcome {
        vss_scheme: String::from("vss-1"),
        secret_shares: vec![share(1, 1), share(1, 2), share(1, 3)],
    };
    let e = gg18_keygen_client_round2(ctx, peer_decoms, Some(vss)).unwrap_err();
    assert_eq!(e.round, 2);
    assert_eq!(e.kind, FailureKind::Protocol);
}

#[test]
fn round2_rejects_failed_vss_step() {
    let ctx = ctx_after_round1(2);
    let peer_decoms = vec![
        DecomMsg { payload: String::from("decom-1"), point: party_point(1) },
        DecomMsg { payload: String::from("decom-3"), point: party_point(3) },
    ];
    let e = gg18_keygen_client_round2(ctx, peer_decoms, None).unwrap_err();
    assert_eq!(e.round, 2);
    assert_eq!(e.kind, FailureKind::Protocol);
}

#[test]
fn round2_message_carries_decommitment() {
    let ctx = ctx_after_round1(3);
    let e = keygen_round2_message(&ctx);
    assert_eq!(e.key, String::from("round2-3-session"));
    assert_eq!(e.value, String::from("decom-3"));
}

#[test]
fn round3_shares_round_trip_between_parties() {
    // Every party encrypts; party 2 collects what was addressed to it.
    let out1 = keygen_round3_messages(&ctx_after_round2(1)).unwrap();
    let out3 = keygen_round3_messages(&ctx_after_round2(3)).unwrap();
    assert_eq!(out1.len(), 2);
    assert_eq!(out1[0].to, 2);
    assert_eq!(out1[0].key, String::from("round3-1-2-session"));
    assert_eq!(out1[1].to, 3);
    assert_eq!(out1[1].key, String::from("round3-1-3-session"));
    let to_party2 = vec![
        out1.into_iter().find(|m| m.to == 2).unwrap().pack,
        out3.into_iter().find(|m| m.to == 2).unwrap().pack,
    ];
    let ctx2 = gg18_keygen_client_round3(ctx_after_round2(2), to_party2).unwrap();
    let shares = ctx2.party_shares.unwrap();
    assert_eq!(shares, vec![share(1, 2), share(2, 2), share(3, 2)]);
}

#[test]
fn round3_tampered_payload_fails_the_round() {
    let out1 = keygen_round3_messages(&ctx_after_round2(1)).unwrap();
    let out3 = keygen_round3_messages(&ctx_after_round2(3)).unwrap();
    let mut pack_from_1 = out1.into_iter().find(|m| m.to == 2).unwrap().pack;
    pack_from_1.ciphertext[0] ^= 0x01;
    let to_party2 = vec![pack_from_1, out3.into_iter().find(|m| m.to == 2).unwrap().pack];
    let e = gg18_keygen_client_round3(ctx_after_round2(2), to_party2).unwrap_err();
    assert_eq!(e.round, 3);
    assert_eq!(e.kind, FailureKind::Protocol);
}

#[test]
fn round3_tampering_any_ciphertext_byte_fails() {
    // Whatever single ciphertext byte an attacker flips, the AEAD tag no
    // longer authenticates and the receiver fails the round.
    let out1 = keygen_round3_messages(&ctx_after_round2(1)).unwrap();
    let out3 = keygen_round3_messages(&ctx_after_round2(3)).unwrap();
    let from1 = out1.into_iter().find(|m| m.to == 2).unwrap().pack;
    let from3 = out3.into_iter().find(|m| m.to == 2).unwrap().pack;
    for i in 0..from1.ciphertext.len() {
        let mut ct = from1.ciphertext.clone();
        ct[i] ^= 0x01;
        let packs = vec![
            tss_core::crypto::AeadPack { ciphertext: ct, nonce: from1.nonce.clone() },
            tss_core::crypto::AeadPack {
                ciphertext: from3.ciphertext.clone(),
                nonce: from3.nonce.clone(),
            },
        ];
        let e = gg18_keygen_client_round3(ctx_after_round2(2), packs).unwrap_err();
        assert_eq!(e.round, 3);
        assert_eq!(e.kind, FailureKind::Protocol);
    }
}

#[test]
fn round3_misrouted_share_fails_to_decrypt() {
    // A pack party 1 sealed for party 3 does not open under the pairwise key
    // party 2 derived for party 1.
    let out1 = keygen_round3_messages(&ctx_after_round2(1)).unwrap();
    let out3 = keygen_round3_messages(&ctx_after_round2(3)).unwrap();
    let misrouted = out1.into_iter().find(|m| m.to == 3).unwrap().pack;
    let from3 = out3.into_iter().find(|m| m.to == 2).unwrap().pack;
    let e = gg18_keygen_client_round3(ctx_after_round2(2), vec![misrouted, from3]).unwrap_err();
    assert_eq!(e.round, 3);
    assert_eq!(e.kind, FailureKind::Protocol);
}

#[test]
fn round2_rejects_aggregate_at_infinity() {
    // A peer decommitting to the exact inverse of this party's point drives
    // the aggregation into the point at infinity, which fails the round.
    let ctx = gg18_keygen_client_new_context(
        1,
        2,
        PartySignup { number: 1, uuid: String::from("session") },
    );
    let ctx = gg18_keygen_client_round1(ctx, local_of(1), vec![String::from("bc-2")]);
    let sk = libsecp256k1::SecretKey::parse_slice(&party_secret(1)).unwrap();
    let mut neg = libsecp256k1::PublicKey::from_secret_key(&sk);
    // n - 1 is -1 modulo the group order.
    let order_minus_one =
        hex::decode("fffffffffffffffffffffffffffffffebaaedce6af48a03bbfd25e8cd0364140").unwrap();
    let minus_one = libsecp256k1::SecretKey::parse_slice(order_minus_one.as_slice()).unwrap();
    neg.tweak_mul_assign(&minus_one).unwrap();
    let peer_decoms = vec![DecomMsg {
        payload: String::from("decom-2"),
        point: neg.serialize().to_vec(),
    }];
    let vss = VssOutcome {
        vss_scheme: String::from("vss-1"),
        secret_shares: vec![share(1, 1), share(1, 2)],
    };
    let e = gg18_keygen_client_round2(ctx, peer_decoms, Some(vss)).unwrap_err();
    assert_eq!(e.round, 2);
    assert_eq!(e.kind, FailureKind::Protocol);
}

#[test]
fn round4_splices_vss_and_takes_keypair() {
    let ctx = ctx_after_round2(2);
    let peer_vss = vec![String::from("vss-1"), String::from("vss-3")];
    let kp = KeyPairOutcome {
        shared_keys: String::from("shared-2"),
        dlog_proof: String::from("dlog-2"),
    };
    let c = gg18_keygen_client_round4(ctx, peer_vss, Some(kp)).unwrap();
    assert_eq!(
        c.vss_scheme_vec.clone().unwrap(),
        vec![String::from("vss-1"), String::from("vss-2"), String::from("vss-3")]
    );
    assert_eq!(c.shared_keys.unwrap(), String::from("shared-2"));
    assert_eq!(c.dlog_proof.unwrap(), String::from("dlog-2"));
    let e = keygen_round4_message(&ctx_after_round2(2));
    assert_eq!(e.key, String::from("round4-2-session"));
    assert_eq!(e.value, String::from("vss-2"));
}

#[test]
fn round4_rejects_failed_keypair_step() {
    let ctx = ctx_after_round2(1);
    let e = gg18_keygen_client_round4(
        ctx,
        vec![String::from("vss-2"), String::from("vss-3")],
        None,
    )
    .unwrap_err();
    assert_eq!(e.round, 4);
    assert_eq!(e.kind, FailureKind::Protocol);
}

fn ctx_after_round4(p: u16) -> GG18KeygenClientContext {
    let peer_vss: Vec<String> =
        (1u16..=3).filter(|i| *i != p).map(|i| format!("vss-{}", i)).collect();
    let kp = KeyPairOutcome {
        shared_keys: format!("shared-{}", p),
        dlog_proof: format!("dlog-{}", p),
    };
    gg18_keygen_client_round4(ctx_after_round2(p), peer_vss, Some(kp)).unwrap()
}

#[test]
fn round5_emits_the_keystore_artifact() {
    let ctx = ctx_after_round4(2);
    let y = ctx.y_sum.clone().unwrap();
    let e = keygen_round5_message(&ctx);
    assert_eq!(e.key, String::from("round5-2-session"));
    assert_eq!(e.value, String::from("dlog-2"));
    let paillier = vec![String::from("ek-1"), String::from("ek-2"), String::from("ek-3")];
    let a = gg18_keygen_client_round5(ctx, true, paillier.clone()).unwrap();
    assert_eq!(a.party_keys, String::from("keys-2"));
    assert_eq!(a.shared_keys, String::from("shared-2"));
    assert_eq!(a.party_num_int, 2);
    assert_eq!(
        a.vss_scheme_vec,
        vec![String::from("vss-1"), String::from("vss-2"), String::from("vss-3")]
    );
    assert_eq!(a.paillier_key_vec, paillier);
    assert_eq!(a.y_sum, y);
}

#[test]
fn round5_rejects_failed_dlog_verification() {
    let ctx = ctx_after_round4(1);
    let paillier = vec![String::from("ek-1"), String::from("ek-2"), String::from("ek-3")];
    let e = gg18_keygen_client_round5(ctx, false, paillier).unwrap_err();
    assert_eq!(e.round, 5);
    assert_eq!(e.kind, FailureKind::Protocol);
}
