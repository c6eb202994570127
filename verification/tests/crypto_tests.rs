use tss_core::crypto::{
    bytes_eq, check_sig, clone_bytes, derive_pair_key, hex_address, pad_left_zeros,
    public_key_address,
};
use tss_core::hexutil::hex_compact;
use sha3::Digest;

fn secret_bytes(v: u8) -> Vec<u8> {
    let mut b = vec![0u8; 32];
    b[31] = v;
    b
}

fn pubkey_of(secret: &[u8]) -> Vec<u8> {
    let sk = libsecp256k1::SecretKey::parse_slice(secret).unwrap();
    libsecp256k1::PublicKey::from_secret_key(&sk).serialize().to_vec()
}

#[test]
fn pairwise_key_is_symmetric() {
    // Party i derives from (Y_j, u_i), party j from (Y_i, u_j): same key.
    let u_i = secret_bytes(11);
    let u_j = secret_bytes(23);
    let y_i = pubkey_of(&u_i);
    let y_j = pubkey_of(&u_j);
    let key_ij = derive_pair_key(y_j.as_slice(), u_i.as_slice()).unwrap();
    let key_ji = derive_pair_key(y_i.as_slice(), u_j.as_slice()).unwrap();
    assert_eq!(key_ij, key_ji);
    assert_eq!(key_ij.len(), 32);
}

#[test]
fn pairwise_key_matches_library_multiplication() {
    let u_i = secret_bytes(4);
    let u_j = secret_bytes(6);
    let key = derive_pair_key(pubkey_of(&u_j).as_slice(), u_i.as_slice()).unwrap();
    // The key is the 32-byte x-coordinate of (u_i * u_j) . G = 24 . G.
    let shared = pubkey_of(&secret_bytes(24));
    assert_eq!(key, shared[1..33].to_vec());
}

#[test]
fn derive_pair_key_rejects_bad_inputs() {
    let y = pubkey_of(&secret_bytes(2));
    assert!(derive_pair_key(y.as_slice(), secret_bytes(0).as_slice()).is_none());
    assert!(derive_pair_key(&y[..64], secret_bytes(2).as_slice()).is_none());
    let mut off_curve = y.clone();
    off_curve[40] ^= 0xff;
    assert!(derive_pair_key(off_curve.as_slice(), secret_bytes(2).as_slice()).is_none());
}

#[test]
fn address_of_known_key() {
    // The address derived from the public key of secret 1 is a well-known
    // test vector.
    let p = pubkey_of(&secret_bytes(1));
    assert_eq!(
        hex_address(p.as_slice()),
        String::from("7e5f4552091a69125d5dfcb7b8c2659029395bdf")
    );
    assert_eq!(public_key_address(p.as_slice()).len(), 20);
}

#[test]
fn address_is_trailing_keccak_bytes() {
    let p = pubkey_of(&secret_bytes(55));
    let digest = sha3::Keccak256::digest(&p[1..65]);
    assert_eq!(public_key_address(p.as_slice()), digest[12..32].to_vec());
}

#[test]
fn check_sig_accepts_real_signature_and_rejects_flipped_message() {
    let sk_bytes = secret_bytes(99);
    let sk = libsecp256k1::SecretKey::parse_slice(&sk_bytes).unwrap();
    let pubkey = pubkey_of(&sk_bytes);
    let mut msg = vec![0u8; 32];
    msg[0] = 0xde;
    msg[1] = 0xad;
    let m = libsecp256k1::Message::parse_slice(&msg).unwrap();
    let (sig, _recid) = libsecp256k1::sign(&m, &sk);
    let compact = sig.serialize();
    let r = &compact[..32];
    let s = &compact[32..];
    assert!(check_sig(r, s, msg.as_slice(), pubkey.as_slice()));
    let mut flipped = msg.clone();
    flipped[5] ^= 0x01;
    assert!(!check_sig(r, s, flipped.as_slice(), pubkey.as_slice()));
    let other = pubkey_of(&secret_bytes(98));
    assert!(!check_sig(r, s, msg.as_slice(), other.as_slice()));
}

#[test]
fn short_message_is_left_padded_for_verification() {
    // A 5-byte message verifies as the 32-byte value its big-endian reading
    // denotes, matching a big-integer construction of the digest.
    let sk_bytes = secret_bytes(77);
    let sk = libsecp256k1::SecretKey::parse_slice(&sk_bytes).unwrap();
    let pubkey = pubkey_of(&sk_bytes);
    let short = b"hello".to_vec();
    let padded = pad_left_zeros(short.as_slice(), 32);
    let m = libsecp256k1::Message::parse_slice(padded.as_slice()).unwrap();
    let (sig, _recid) = libsecp256k1::sign(&m, &sk);
    let compact = sig.serialize();
    assert!(check_sig(&compact[..32], &compact[32..], short.as_slice(), pubkey.as_slice()));
}

#[test]
fn hex_compact_matches_big_integer_rendering() {
    // The signature components travel as shortest lowercase hex; a leading
    // zero byte of the 32-byte scalar drops out.
    let mut scalar = vec![0u8; 32];
    scalar[1] = 0x0a;
    scalar[31] = 0xff;
    let expected = format!("a{}ff", "0".repeat(58));
    assert_eq!(hex_compact(scalar.as_slice()), expected);
}

#[test]
fn byte_helpers() {
    let v = vec![1u8, 2, 3];
    assert_eq!(clone_bytes(&v), v);
    assert!(bytes_eq(&v, &vec![1u8, 2, 3]));
    assert!(!bytes_eq(&v, &vec![1u8, 2]));
    assert!(!bytes_eq(&v, &vec![1u8, 2, 4]));
    assert_eq!(pad_left_zeros(&[7u8], 4), vec![0u8, 0, 0, 7]);
    assert_eq!(pad_left_zeros(&[], 2), vec![0u8, 0]);
}
