//! Trusted access to the curve, hash and AEAD primitives, and the verified
//! derivations built directly on them.
//!
//! Each wrapper names the outside function it relies on; everything after a
//! wrapper's return is verified against the wrapper's contract. Points travel
//! as 65-byte uncompressed encodings, scalars as 32-byte big-endian values.

use vstd::prelude::*;
use vstd::slice::{slice_subrange, slice_to_vec};
use aes_gcm::aead::{Aead, OsRng};
use aes_gcm::{AeadCore, Aes256Gcm, KeyInit, Nonce};
use sha3::{Digest, Keccak256};

verus! {

/// Width of the pairwise AES keys: the curve's x-coordinate width.
pub const AES_KEY_BYTES_LEN: usize = 32;

/// Big-endian value of a byte string.
pub open spec fn be_val(b: Seq<u8>) -> nat
    decreases b.len(),
{
    if b.len() == 0 {
        0
    } else {
        be_val(b.drop_last()) * 256 + (b.last() as nat)
    }
}

/// The order of the secp256k1 group, assembled from its two 128-bit halves.
pub open spec fn secp256k1_order() -> nat {
    (0xfffffffffffffffffffffffffffffffeu128 as nat) * (0x10000000000000000u128 as nat) * (
    0x10000000000000000u128 as nat) + (0xbaaedce6af48a03bbfd25e8cd0364141u128 as nat)
}

/// A byte string that parses as a curve scalar: 32 bytes, non-zero, below the
/// group order.
pub open spec fn is_valid_scalar(b: Seq<u8>) -> bool {
    b.len() == 32 && 0 < be_val(b) && be_val(b) < secp256k1_order()
}

/// Whether a byte string is a parseable 65-byte public-key encoding of a
/// point on the curve.
pub uninterp spec fn is_curve_point(b: Seq<u8>) -> bool;

/// The 65-byte encoding of the scalar multiple of a point.
pub uninterp spec fn point_mul_of(point: Seq<u8>, scalar: Seq<u8>) -> Seq<u8>;

/// The 65-byte encoding of the sum of two points.
pub uninterp spec fn point_add_of(a: Seq<u8>, b: Seq<u8>) -> Seq<u8>;

/// Whether the sum of two points is a proper point again (not the point at
/// infinity, on which the curve library's addition fails).
pub uninterp spec fn point_sum_defined(a: Seq<u8>, b: Seq<u8>) -> bool;

/// The Keccak-256 digest of a byte string.
pub uninterp spec fn keccak256_of(data: Seq<u8>) -> Seq<u8>;

/// What AES-256-GCM decryption yields for a key, nonce and ciphertext:
/// the plaintext when the tag authenticates, nothing otherwise.
pub uninterp spec fn aead_dec(key: Seq<u8>, nonce: Seq<u8>, ciphertext: Seq<u8>) -> Option<
    Seq<u8>,
>;

/// Whether a 32-byte message, a 64-byte compact signature and a public-key
/// encoding pass standard ECDSA verification over secp256k1.
pub uninterp spec fn ecdsa_valid(msg32: Seq<u8>, sig64: Seq<u8>, pubkey: Seq<u8>) -> bool;

/// The curve library's error; carried through untouched and mapped to a
/// library error by the verified caller.
#[verifier::external_type_specification]
#[verifier::external_body]
pub struct ExSecpError(libsecp256k1::Error);

/// The AEAD library's error; carried through untouched and mapped to a
/// library error by the verified caller.
#[verifier::external_type_specification]
#[verifier::external_body]
pub struct ExAeadError(aes_gcm::Error);

/// An AES-GCM ciphertext with the nonce it was sealed under; the wire form of
/// an encrypted secret share.
#[derive(Debug)]
pub struct AeadPack {
    pub ciphertext: Vec<u8>,
    pub nonce: Vec<u8>,
}

/// Relies on `libsecp256k1::PublicKey::parse_slice`: accepts exactly the
/// 65-byte encodings of curve points.
#[verifier::external_body]
pub(crate) fn check_point(b: &[u8]) -> (r: bool)
    ensures
        r == is_curve_point(b@),
        r ==> b@.len() == 65,
{
    libsecp256k1::PublicKey::parse_slice(b, Some(libsecp256k1::PublicKeyFormat::Full)).is_ok()
}

/// Relies on `libsecp256k1::PublicKey::tweak_mul_assign` (with
/// `PublicKey::parse_slice` and `SecretKey::parse_slice` reading the
/// arguments): multiplies a curve point by a non-zero scalar, which succeeds
/// exactly when both arguments parse, and serializes the product, itself a
/// valid 65-byte point encoding.
#[verifier::external_body]
pub(crate) fn point_mul(point: &[u8], scalar: &[u8]) -> (r: Result<Vec<u8>, libsecp256k1::Error>)
    ensures
        (r is Ok) == (is_curve_point(point@) && is_valid_scalar(scalar@)),
        r is Ok ==> point@.len() == 65,
        r matches Ok(v) ==> v@ == point_mul_of(point@, scalar@) && v@.len() == 65
            && is_curve_point(v@),
{
    let mut p = libsecp256k1::PublicKey::parse_slice(
        point,
        Some(libsecp256k1::PublicKeyFormat::Full),
    )?;
    let k = libsecp256k1::SecretKey::parse_slice(scalar)?;
    p.tweak_mul_assign(&k)?;
    Ok(p.serialize().to_vec())
}

/// Relies on `libsecp256k1::PublicKey::combine` (with `parse_slice` reading
/// the arguments): adds two curve points; fails only when the sum is the
/// point at infinity, and otherwise serializes a valid 65-byte encoding.
#[verifier::external_body]
pub(crate) fn point_add(a: &[u8], b: &[u8]) -> (r: Result<Vec<u8>, libsecp256k1::Error>)
    requires
        is_curve_point(a@),
        is_curve_point(b@),
    ensures
        (r is Ok) == point_sum_defined(a@, b@),
        r matches Ok(v) ==> v@ == point_add_of(a@, b@) && v@.len() == 65 && is_curve_point(v@),
{
    let pa = libsecp256k1::PublicKey::parse_slice(a, Some(libsecp256k1::PublicKeyFormat::Full))?;
    let pb = libsecp256k1::PublicKey::parse_slice(b, Some(libsecp256k1::PublicKeyFormat::Full))?;
    let sum = libsecp256k1::PublicKey::combine(&[pa, pb])?;
    Ok(sum.serialize().to_vec())
}

/// Relies on `libsecp256k1::verify` (with `Message::parse_slice`,
/// `Signature::parse_standard_slice` and `PublicKey::parse_slice` reading the
/// arguments): standard ECDSA verification; unparseable bytes verify as
/// false.
#[verifier::external_body]
pub(crate) fn ecdsa_verify(msg32: &[u8], sig64: &[u8], pubkey: &[u8]) -> (r: bool)
    ensures
        r == ecdsa_valid(msg32@, sig64@, pubkey@),
{
    let m = libsecp256k1::Message::parse_slice(msg32);
    let s = libsecp256k1::Signature::parse_standard_slice(sig64);
    let p = libsecp256k1::PublicKey::parse_slice(pubkey, Some(libsecp256k1::PublicKeyFormat::Full));
    match (m, s, p) {
        (Ok(m), Ok(s), Ok(p)) => libsecp256k1::verify(&m, &s, &p),
        _ => false,
    }
}

/// Relies on `sha3::Keccak256`: a 32-byte digest of the input alone.
#[verifier::external_body]
pub(crate) fn keccak256(data: &[u8]) -> (r: Vec<u8>)
    ensures
        r@ == keccak256_of(data@),
        r@.len() == 32,
{
    Keccak256::digest(data).to_vec()
}

/// Relies on `aes_gcm::Aes256Gcm::encrypt` (nonce freshly drawn from the
/// system's randomness): a pack whose ciphertext decrypts, under the same key
/// and the pack's nonce, to exactly the plaintext.
#[verifier::external_body]
pub(crate) fn aes_encrypt(key: &[u8], plaintext: &[u8]) -> (r: Result<AeadPack, aes_gcm::Error>)
    requires
        key@.len() == 32,
    ensures
        r matches Ok(p) ==> aead_dec(key@, p.nonce@, p.ciphertext@) == Some(plaintext@)
            && p.nonce@.len() == 12,
{
    let cipher = Aes256Gcm::new_from_slice(key).map_err(|_| aes_gcm::Error)?;
    let nonce = Aes256Gcm::generate_nonce(&mut OsRng);
    let ciphertext = cipher.encrypt(&nonce, plaintext)?;
    Ok(AeadPack { ciphertext, nonce: nonce.to_vec() })
}

/// Relies on `aes_gcm::Aes256Gcm::decrypt`: yields the plaintext when the
/// tag authenticates under the key and nonce, and an error otherwise.
#[verifier::external_body]
pub(crate) fn aes_decrypt(key: &[u8], pack: &AeadPack) -> (r: Result<Vec<u8>, aes_gcm::Error>)
    requires
        key@.len() == 32,
        pack.nonce@.len() == 12,
    ensures
        r matches Ok(pt) ==> aead_dec(key@, pack.nonce@, pack.ciphertext@) == Some(pt@),
        r is Err ==> aead_dec(key@, pack.nonce@, pack.ciphertext@) is None,
{
    let cipher = Aes256Gcm::new_from_slice(key).map_err(|_| aes_gcm::Error)?;
    let nonce = Nonce::from_slice(&pack.nonce);
    cipher.decrypt(nonce, pack.ciphertext.as_slice())
}

/// The left fold of point addition over a sequence of point encodings: how
/// the aggregated public key arises from the parties' published points.
pub open spec fn sum_points_spec(points: Seq<Seq<u8>>) -> Seq<u8>
    decreases points.len(),
{
    if points.len() == 0 {
        Seq::empty()
    } else if points.len() == 1 {
        points[0]
    } else {
        point_add_of(sum_points_spec(points.drop_last()), points.last())
    }
}

/// Whether the whole fold stays clear of the point at infinity.
pub open spec fn sum_points_defined(points: Seq<Seq<u8>>) -> bool
    decreases points.len(),
{
    if points.len() <= 1 {
        true
    } else {
        sum_points_defined(points.drop_last()) && point_sum_defined(
            sum_points_spec(points.drop_last()),
            points.last(),
        )
    }
}

/// A defined fold is defined on every prefix.
pub proof fn lemma_sum_defined_prefix(points: Seq<Seq<u8>>, i: int)
    requires
        sum_points_defined(points),
        0 <= i <= points.len(),
    ensures
        sum_points_defined(points.take(i)),
    decreases points.len() - i,
{
    if i == points.len() {
        assert(points.take(i) =~= points);
    } else {
        lemma_sum_defined_prefix(points, i + 1);
        assert(points.take(i + 1).drop_last() =~= points.take(i));
    }
}

/// Copies a byte vector.
pub fn clone_bytes(v: &Vec<u8>) -> (r: Vec<u8>)
    ensures
        r@ == v@,
{
    let mut out: Vec<u8> = Vec::new();
    let n = v.len();
    let mut i: usize = 0;
    while i < n
        invariant
            n == v@.len(),
            0 <= i <= n,
            out@ =~= v@.take(i as int),
        decreases n - i,
    {
        out.push(v[i]);
        i = i + 1;
    }
    proof {
        assert(v@.take(n as int) =~= v@);
    }
    out
}

/// Compares two byte vectors.
pub fn bytes_eq(a: &Vec<u8>, b: &Vec<u8>) -> (r: bool)
    ensures
        r == (a@ == b@),
{
    let n = a.len();
    if n != b.len() {
        return false;
    }
    let mut i: usize = 0;
    while i < n
        invariant
            n == a@.len() == b@.len(),
            0 <= i <= n,
            forall|j: int| 0 <= j < i ==> a@[j] == b@[j],
        decreases n - i,
    {
        if a[i] != b[i] {
            return false;
        }
        i = i + 1;
    }
    proof {
        assert(a@ =~= b@);
    }
    true
}

/// Zero bytes, then `b`: the fixed-width layout of short big-endian values.
pub open spec fn spec_pad_left(b: Seq<u8>, width: nat) -> Seq<u8> {
    Seq::new((width - b.len()) as nat, |i: int| 0u8) + b
}

/// Left-pads a byte string with zeros to exactly `width` bytes.
pub fn pad_left_zeros(b: &[u8], width: usize) -> (r: Vec<u8>)
    requires
        b@.len() <= width,
    ensures
        r@ == spec_pad_left(b@, width as nat),
        r@.len() == width,
{
    let mut v: Vec<u8> = Vec::new();
    let pad = width - b.len();
    let mut i: usize = 0;
    while i < pad
        invariant
            0 <= i <= pad,
            v@.len() == i,
            forall|j: int| 0 <= j < i ==> v@[j] == 0u8,
        decreases pad - i,
    {
        v.push(0u8);
        i = i + 1;
    }
    v.extend_from_slice(b);
    proof {
        assert(v@ =~= spec_pad_left(b@, width as nat));
    }
    v
}

/// The pairwise key's spec: the x-coordinate bytes of the scalar multiple of
/// the peer's point.
pub open spec fn spec_pair_key(peer_point: Seq<u8>, own_secret: Seq<u8>) -> Seq<u8> {
    point_mul_of(peer_point, own_secret).subrange(1, 33)
}

/// The fixed-width AES key a party derives for a peer: the x-coordinate of
/// the Diffie-Hellman product of the peer's published point and the party's
/// own secret. Fails exactly when the point or the scalar does not parse.
pub fn derive_pair_key(peer_point: &[u8], own_secret: &[u8]) -> (r: Option<Vec<u8>>)
    ensures
        r is Some <==> is_curve_point(peer_point@) && is_valid_scalar(own_secret@),
        r is Some ==> peer_point@.len() == 65,
        r matches Some(v) ==> v@ == spec_pair_key(peer_point@, own_secret@) && v@.len()
            == AES_KEY_BYTES_LEN,
{
    match point_mul(peer_point, own_secret) {
        Ok(product) => {
            let x = slice_subrange(product.as_slice(), 1, 33);
            Some(slice_to_vec(x))
        },
        Err(_) => None,
    }
}

/// The address derived from an aggregated public key: the trailing 20 bytes
/// of the Keccak-256 digest of the point's coordinates.
pub fn public_key_address(pubkey: &[u8]) -> (r: Vec<u8>)
    requires
        pubkey@.len() == 65,
    ensures
        r@ == keccak256_of(pubkey@.subrange(1, 65)).subrange(12, 32),
        r@.len() == 20,
{
    let body = slice_subrange(pubkey, 1, 65);
    let digest = keccak256(body);
    let tail = slice_subrange(digest.as_slice(), 12, 32);
    slice_to_vec(tail)
}

/// The address as it is reported: lowercase hex of the trailing 20 digest
/// bytes.
pub fn hex_address(pubkey: &[u8]) -> (r: String)
    requires
        pubkey@.len() == 65,
    ensures
        r@ == crate::hexutil::hex_of(keccak256_of(pubkey@.subrange(1, 65)).subrange(12, 32)),
{
    let bytes = public_key_address(pubkey);
    crate::hexutil::hex_encode(bytes.as_slice())
}

/// Verifies a final signature `(r, s)` over a message of at most 32 bytes
/// against the aggregated public key: the message is left-padded to the
/// 32-byte digest width, as a big integer read of its bytes lays it out.
pub fn check_sig(r: &[u8], s: &[u8], message: &[u8], y_sum: &[u8]) -> (ok: bool)
    requires
        r@.len() == 32,
        s@.len() == 32,
        message@.len() <= 32,
    ensures
        ok == ecdsa_valid(spec_pad_left(message@, 32), r@ + s@, y_sum@),
{
    let msg32 = pad_left_zeros(message, 32);
    let mut sig: Vec<u8> = Vec::new();
    sig.extend_from_slice(r);
    sig.extend_from_slice(s);
    proof {
        assert(sig@ =~= r@ + s@);
    }
    ecdsa_verify(msg32.as_slice(), sig.as_slice(), y_sum)
}

} // verus!
