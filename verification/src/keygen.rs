//! The per-party distributed key generation state machine: five rounds from
//! signup to the long-term keystore artifact.
//!
//! Each round reads the peers' messages for one round label, runs its
//! cryptographic sub-steps, and fills further fields of the context. The
//! sub-steps that live in the vetted crypto suite (Paillier keys, commitments,
//! verifiable secret sharing, discrete-log proofs) enter as opaque payloads
//! and outcome values; everything that orders, splices, derives keys, encrypts
//! shares, aggregates the public key and gates on failures is verified here.

use vstd::prelude::*;
use crate::common::{Entry, PartySignup};
use crate::crypto::{
    aead_dec, aes_decrypt, aes_encrypt, check_point, clone_bytes, derive_pair_key, hex_address,
    is_curve_point, is_valid_scalar, keccak256_of, point_add, spec_pair_key, sum_points_defined,
    sum_points_spec, AeadPack,
};
use crate::errors::{FailureKind, RoundFailure};
use crate::hexutil::hex_of;
use crate::transport::{broadcast_key, merge_own_at, p2p_key, spec_broadcast_key, spec_p2p_key, spec_sender_at};

verus! {

/// Protocol parameters: a `threshold + 1`-of-`share_count` scheme.
#[derive(Clone, Copy, Debug, PartialEq, Eq, Structural)]
pub struct Parameters {
    pub threshold: u16,
    pub share_count: u16,
}

/// The views of a sequence of byte vectors.
pub open spec fn byte_vec_views(vs: Seq<Vec<u8>>) -> Seq<Seq<u8>> {
    vs.map(|i: int, v: Vec<u8>| v@)
}

/// A peer's round-2 decommitment as the round logic reads it: the raw payload
/// and the revealed point `y_i` it carries.
#[derive(Debug)]
pub struct DecomMsg {
    pub payload: String,
    pub point: Vec<u8>,
}

/// What a party creates locally entering round 1: its key material and the
/// commitment it will broadcast. `party_keys` and the payloads are opaque to
/// the round logic; `own_secret` is the ephemeral secret `u_i` and
/// `decom_point` the point `y_i` the decommitment reveals.
#[derive(Debug)]
pub struct Round1Local {
    pub party_keys: String,
    pub own_secret: Vec<u8>,
    pub bc_i: String,
    pub decom_payload: String,
    pub decom_point: Vec<u8>,
}

/// The outcome of the round-2 crypto sub-step (verify the peers' commitments
/// and Paillier proofs, then run the verifiable secret sharing distribution):
/// the party's VSS scheme and one 32-byte share per party.
#[derive(Debug)]
pub struct VssOutcome {
    pub vss_scheme: String,
    pub secret_shares: Vec<Vec<u8>>,
}

/// The outcome of the round-4 crypto sub-step (verify the VSS schemes,
/// construct the shared key pair, prove knowledge of the secret).
#[derive(Debug)]
pub struct KeyPairOutcome {
    pub shared_keys: String,
    pub dlog_proof: String,
}

/// A point-to-point message to send: the receiving party, the store key to
/// deposit under, and the encrypted share.
#[derive(Debug)]
pub struct P2pOut {
    pub to: u16,
    pub key: String,
    pub pack: AeadPack,
}

/// The long-term keystore artifact keygen emits, and signing later consumes.
#[derive(Debug)]
pub struct KeygenArtifact {
    pub party_keys: String,
    pub shared_keys: String,
    pub party_num_int: u16,
    pub vss_scheme_vec: Vec<String>,
    pub paillier_key_vec: Vec<String>,
    pub y_sum: Vec<u8>,
}

/// A party's keygen context, filled monotonically round by round.
#[derive(Debug)]
pub struct GG18KeygenClientContext {
    pub params: Parameters,
    pub party_num_int: u16,
    pub uuid: String,
    pub bc1_vec: Option<Vec<String>>,
    pub party_keys: Option<String>,
    pub own_secret: Option<Vec<u8>>,
    pub decom_i: Option<String>,
    pub decom_point: Option<Vec<u8>>,
    pub y_sum: Option<Vec<u8>>,
    pub public_key_address: Option<String>,
    pub vss_scheme: Option<String>,
    pub secret_shares: Option<Vec<Vec<u8>>>,
    pub enc_keys: Option<Vec<Vec<u8>>>,
    pub party_shares: Option<Vec<Vec<u8>>>,
    pub point_vec: Option<Vec<Vec<u8>>>,
    pub dlog_proof: Option<String>,
    pub shared_keys: Option<String>,
    pub vss_scheme_vec: Option<Vec<String>>,
}

impl GG18KeygenClientContext {
    /// The header invariant fixed at signup: sound parameters and a party
    /// number within the session.
    pub open spec fn wf_base(&self) -> bool {
        &&& 1 <= self.params.threshold
        &&& self.params.threshold < self.params.share_count
        &&& self.params.share_count < u16::MAX
        &&& 1 <= self.party_num_int <= self.params.share_count
    }

    /// The party's zero-based position among the session's parties.
    pub open spec fn spec_pos(&self) -> int {
        self.party_num_int - 1
    }
}

/// The header fields never change after signup.
pub open spec fn kg_header_eq(c: &GG18KeygenClientContext, ctx: &GG18KeygenClientContext) -> bool {
    &&& c.params == ctx.params
    &&& c.party_num_int == ctx.party_num_int
    &&& c.uuid == ctx.uuid
}

/// Starts a keygen session for a party that signed up as `signup` in a
/// `t`-of-`n` scheme: the context header, with every round field still empty.
pub fn gg18_keygen_client_new_context(t: u16, n: u16, signup: PartySignup) -> (r:
    GG18KeygenClientContext)
    requires
        1 <= t < n < u16::MAX,
        1 <= signup.number <= n,
    ensures
        r.wf_base(),
        r.params == (Parameters { threshold: t, share_count: n }),
        r.party_num_int == signup.number,
        r.uuid == signup.uuid,
        r.bc1_vec is None && r.party_keys is None && r.own_secret is None && r.decom_i is None
            && r.decom_point is None && r.y_sum is None && r.public_key_address is None
            && r.vss_scheme is None && r.secret_shares is None && r.enc_keys is None
            && r.party_shares is None && r.point_vec is None && r.dlog_proof is None
            && r.shared_keys is None && r.vss_scheme_vec is None,
{
    GG18KeygenClientContext {
        params: Parameters { threshold: t, share_count: n },
        party_num_int: signup.number,
        uuid: signup.uuid,
        bc1_vec: None,
        party_keys: None,
        own_secret: None,
        decom_i: None,
        decom_point: None,
        y_sum: None,
        public_key_address: None,
        vss_scheme: None,
        secret_shares: None,
        enc_keys: None,
        party_shares: None,
        point_vec: None,
        dlog_proof: None,
        shared_keys: None,
        vss_scheme_vec: None,
    }
}

/// The round-1 broadcast: the party's commitment under `round1-{party}-{uuid}`.
pub fn keygen_round1_message(ctx: &GG18KeygenClientContext, local: &Round1Local) -> (r: Entry)
    ensures
        r.key@ == spec_broadcast_key("round1"@, ctx.party_num_int, ctx.uuid@),
        r.value@ == local.bc_i@,
{
    Entry {
        key: broadcast_key("round1", ctx.party_num_int, ctx.uuid.as_str()),
        value: local.bc_i.clone(),
    }
}

/// Round 1: collect the peers' commitments and splice the party's own in at
/// its position; keep the fresh key material.
pub fn gg18_keygen_client_round1(
    ctx: GG18KeygenClientContext,
    local: Round1Local,
    peer_bc1: Vec<String>,
) -> (r: GG18KeygenClientContext)
    requires
        ctx.wf_base(),
        peer_bc1@.len() == ctx.params.share_count - 1,
    ensures
        kg_header_eq(&r, &ctx),
        r.bc1_vec matches Some(v) && v@ == peer_bc1@.insert(ctx.spec_pos(), local.bc_i),
        r.party_keys == Some(local.party_keys),
        r.own_secret == Some(local.own_secret),
        r.decom_i == Some(local.decom_payload),
        r.decom_point == Some(local.decom_point),
        r.y_sum == ctx.y_sum && r.public_key_address == ctx.public_key_address && r.vss_scheme
            == ctx.vss_scheme && r.secret_shares == ctx.secret_shares && r.enc_keys == ctx.enc_keys
            && r.party_shares == ctx.party_shares && r.point_vec == ctx.point_vec && r.dlog_proof
            == ctx.dlog_proof && r.shared_keys == ctx.shared_keys && r.vss_scheme_vec
            == ctx.vss_scheme_vec,
{
    let pos = (ctx.party_num_int - 1) as usize;
    let bc1 = merge_own_at(peer_bc1, pos, local.bc_i);
    GG18KeygenClientContext {
        bc1_vec: Some(bc1),
        party_keys: Some(local.party_keys),
        own_secret: Some(local.own_secret),
        decom_i: Some(local.decom_payload),
        decom_point: Some(local.decom_point),
        ..ctx
    }
}

/// The round-2 broadcast: the party's decommitment.
pub fn keygen_round2_message(ctx: &GG18KeygenClientContext) -> (r: Entry)
    requires
        ctx.decom_i is Some,
    ensures
        r.key@ == spec_broadcast_key("round2"@, ctx.party_num_int, ctx.uuid@),
        r.value@ == ctx.decom_i->0@,
{
    let value = match &ctx.decom_i {
        Some(s) => s.clone(),
        None => String::new(),
    };
    Entry { key: broadcast_key("round2", ctx.party_num_int, ctx.uuid.as_str()), value }
}

/// The full, position-indexed sequence of the points the session's parties
/// revealed in round 2, as this party reconstructs it: the peers' points with
/// the party's own point at its position.
pub open spec fn kg_round2_points(
    ctx: &GG18KeygenClientContext,
    peer_decoms: Seq<DecomMsg>,
) -> Seq<Seq<u8>> {
    Seq::new(
        (peer_decoms.len() + 1) as nat,
        |k: int|
            if k < ctx.spec_pos() {
                peer_decoms[k].point@
            } else if k == ctx.spec_pos() {
                ctx.decom_point->0@
            } else {
                peer_decoms[k - 1].point@
            },
    )
}

/// When round 2 succeeds: the crypto sub-step accepted the commitments, every
/// revealed point parses on the curve, the party's own secret is a proper
/// scalar, and the aggregation never hits the point at infinity.
pub open spec fn kg_round2_ok(
    ctx: &GG18KeygenClientContext,
    peer_decoms: Seq<DecomMsg>,
    vss: &Option<VssOutcome>,
) -> bool {
    &&& vss is Some
    &&& is_valid_scalar(ctx.own_secret->0@)
    &&& is_curve_point(ctx.decom_point->0@)
    &&& (forall|j: int|
        0 <= j < peer_decoms.len() ==> is_curve_point(#[trigger] peer_decoms[j].point@))
    &&& sum_points_defined(kg_round2_points(ctx, peer_decoms))
}

/// Round 2: read the peers' decommitments, aggregate the public key, derive
/// the pairwise AES keys, and take over the VSS scheme and shares the crypto
/// sub-step produced.
pub fn gg18_keygen_client_round2(
    ctx: GG18KeygenClientContext,
    peer_decoms: Vec<DecomMsg>,
    vss: Option<VssOutcome>,
) -> (r: Result<GG18KeygenClientContext, RoundFailure>)
    requires
        ctx.wf_base(),
        ctx.own_secret is Some,
        ctx.decom_point is Some,
        peer_decoms@.len() == ctx.params.share_count - 1,
        vss matches Some(v) ==> v.secret_shares@.len() == ctx.params.share_count,
    ensures
        (r is Ok) == kg_round2_ok(&ctx, peer_decoms@, &vss),
        r matches Err(e) ==> e == (RoundFailure { round: 2, kind: FailureKind::Protocol }),
        r matches Ok(c) ==> ({
            let all_points = kg_round2_points(&ctx, peer_decoms@);
            &&& kg_header_eq(&c, &ctx)
            &&& c.bc1_vec == ctx.bc1_vec && c.party_keys == ctx.party_keys && c.own_secret
                == ctx.own_secret && c.decom_i == ctx.decom_i && c.decom_point == ctx.decom_point
                && c.party_shares == ctx.party_shares && c.dlog_proof == ctx.dlog_proof
                && c.shared_keys == ctx.shared_keys && c.vss_scheme_vec == ctx.vss_scheme_vec
            &&& (c.point_vec matches Some(pv) && byte_vec_views(pv@) == all_points)
            &&& (c.enc_keys matches Some(ek) && ek@.len() == peer_decoms@.len() && (forall|j: int|
                0 <= j < ek@.len() ==> (#[trigger] ek@[j])@ == spec_pair_key(
                    peer_decoms@[j].point@,
                    ctx.own_secret->0@,
                ) && ek@[j]@.len() == 32))
            &&& (c.y_sum matches Some(y) && y@ == sum_points_spec(all_points) && y@.len() == 65)
            &&& (c.public_key_address matches Some(a) && a@ == hex_of(
                keccak256_of(sum_points_spec(all_points).subrange(1, 65)).subrange(12, 32),
            ))
            &&& c.vss_scheme == Some(vss->0.vss_scheme)
            &&& c.secret_shares == Some(vss->0.secret_shares)
        }),
{
    let n = ctx.params.share_count;
    let own_point: Vec<u8> = match &ctx.decom_point {
        Some(p) => clone_bytes(p),
        None => {
            return Err(RoundFailure { round: 2, kind: FailureKind::Protocol });
        },
    };
    let own_secret: Vec<u8> = match &ctx.own_secret {
        Some(s) => clone_bytes(s),
        None => {
            return Err(RoundFailure { round: 2, kind: FailureKind::Protocol });
        },
    };
    if !check_point(own_point.as_slice()) {
        return Err(RoundFailure { round: 2, kind: FailureKind::Protocol });
    }
    let ghost all_points = kg_round2_points(&ctx, peer_decoms@);
    let mut enc_keys: Vec<Vec<u8>> = Vec::new();
    let mut point_vec: Vec<Vec<u8>> = Vec::new();
    let mut i: u16 = 1;
    let mut j: usize = 0;
    while i <= n
        invariant
            ctx.wf_base(),
            n == ctx.params.share_count,
            peer_decoms@.len() == n - 1,
            all_points == kg_round2_points(&ctx, peer_decoms@),
            1 <= i <= n + 1,
            j == if i <= ctx.party_num_int {
                (i - 1) as int
            } else {
                (i - 2) as int
            },
            own_secret@ == ctx.own_secret->0@,
            own_point@ == ctx.decom_point->0@,
            is_curve_point(own_point@) && own_point@.len() == 65,
            point_vec@.len() == i - 1,
            forall|k: int| 0 <= k < i - 1 ==> (#[trigger] point_vec@[k])@ == all_points[k],
            enc_keys@.len() == j,
            forall|k: int|
                0 <= k < j ==> (#[trigger] enc_keys@[k])@ == spec_pair_key(
                    peer_decoms@[k].point@,
                    ctx.own_secret->0@,
                ) && enc_keys@[k]@.len() == 32,
            forall|k: int|
                0 <= k < j ==> is_curve_point(#[trigger] peer_decoms@[k].point@)
                    && peer_decoms@[k].point@.len() == 65,
            j > 0 ==> is_valid_scalar(ctx.own_secret->0@),
        decreases n + 1 - i,
    {
        if i == ctx.party_num_int {
            point_vec.push(clone_bytes(&own_point));
        } else {
            let d = &peer_decoms[j];
            match derive_pair_key(d.point.as_slice(), own_secret.as_slice()) {
                Some(k) => {
                    enc_keys.push(k);
                },
                None => {
                    return Err(RoundFailure { round: 2, kind: FailureKind::Protocol });
                },
            }
            point_vec.push(clone_bytes(&d.point));
            j = j + 1;
        }
        i = i + 1;
    }
    proof {
        assert(forall|k: int|
            0 <= k < all_points.len() ==> is_curve_point(#[trigger] all_points[k])
                && all_points[k].len() == 65);
        assert(all_points.take(1) =~= seq![all_points[0]]);
        assert(point_vec@[0]@ == all_points[0]);
    }
    let mut acc: Vec<u8> = clone_bytes(&point_vec[0]);
    let n = ctx.params.share_count as usize;
    let mut i: usize = 1;
    while i < n
        invariant
            ctx.wf_base(),
            all_points == kg_round2_points(&ctx, peer_decoms@),
            peer_decoms@.len() == ctx.params.share_count - 1,
            n == ctx.params.share_count,
            1 <= i <= n,
            n == all_points.len(),
            n == point_vec@.len(),
            forall|k: int| 0 <= k < n ==> (#[trigger] point_vec@[k])@ == all_points[k],
            forall|k: int|
                0 <= k < all_points.len() ==> is_curve_point(#[trigger] all_points[k])
                    && all_points[k].len() == 65,
            acc@ == sum_points_spec(all_points.take(i as int)),
            is_curve_point(acc@),
            acc@.len() == 65,
            sum_points_defined(all_points.take(i as int)),
        decreases n - i,
    {
        match point_add(acc.as_slice(), point_vec[i].as_slice()) {
            Ok(s) => {
                proof {
                    assert(all_points.take(i as int + 1).drop_last() =~= all_points.take(i as int));
                    assert(all_points.take(i as int + 1).last() == all_points[i as int]);
                }
                acc = s;
            },
            Err(_) => {
                proof {
                    assert(all_points.take(i as int + 1).drop_last() =~= all_points.take(i as int));
                    assert(all_points.take(i as int + 1).last() == all_points[i as int]);
                    assert(!sum_points_defined(all_points.take(i as int + 1)));
                    if sum_points_defined(all_points) {
                        crate::crypto::lemma_sum_defined_prefix(all_points, i as int + 1);
                    }
                }
                return Err(RoundFailure { round: 2, kind: FailureKind::Protocol });
            },
        }
        i = i + 1;
    }
    proof {
        assert(all_points.take(n as int) =~= all_points);
    }
    let address = hex_address(acc.as_slice());
    let vss_out = match vss {
        Some(v) => v,
        None => {
            return Err(RoundFailure { round: 2, kind: FailureKind::Protocol });
        },
    };
    proof {
        assert(byte_vec_views(point_vec@) =~= all_points);
    }
    Ok(
        GG18KeygenClientContext {
            y_sum: Some(acc),
            public_key_address: Some(address),
            vss_scheme: Some(vss_out.vss_scheme),
            secret_shares: Some(vss_out.secret_shares),
            enc_keys: Some(enc_keys),
            point_vec: Some(point_vec),
            ..ctx
        },
    )
}

/// The round-3 point-to-point messages: for each peer, this party's secret
/// share for it, AES-GCM sealed under their pairwise key, in ascending peer
/// order.
pub fn keygen_round3_messages(ctx: &GG18KeygenClientContext) -> (r: Result<
    Vec<P2pOut>,
    RoundFailure,
>)
    requires
        ctx.wf_base(),
        ctx.enc_keys matches Some(ek) && ek@.len() == ctx.params.share_count - 1 && (forall|j: int|
            0 <= j < ek@.len() ==> (#[trigger] ek@[j])@.len() == 32),
        ctx.secret_shares matches Some(ss) && ss@.len() == ctx.params.share_count,
    ensures
        r matches Ok(v) ==> ({
            &&& v@.len() == ctx.params.share_count - 1
            &&& forall|j: int|
                0 <= j < v@.len() ==> ({
                    let to = spec_sender_at(ctx.party_num_int, j);
                    &&& (#[trigger] v@[j]).to == to
                    &&& v@[j].key@ == spec_p2p_key("round3"@, ctx.party_num_int, to, ctx.uuid@)
                    &&& v@[j].pack.nonce@.len() == 12
                    &&& aead_dec(ctx.enc_keys->0@[j]@, v@[j].pack.nonce@, v@[j].pack.ciphertext@)
                        == Some(ctx.secret_shares->0@[to - 1]@)
                })
        }),
        r matches Err(e) ==> e == (RoundFailure { round: 3, kind: FailureKind::Protocol }),
{
    let n = ctx.params.share_count;
    let enc_keys = match &ctx.enc_keys {
        Some(x) => x,
        None => {
            return Err(RoundFailure { round: 3, kind: FailureKind::Protocol });
        },
    };
    let shares = match &ctx.secret_shares {
        Some(x) => x,
        None => {
            return Err(RoundFailure { round: 3, kind: FailureKind::Protocol });
        },
    };
    let mut out: Vec<P2pOut> = Vec::new();
    let mut i: u16 = 1;
    let mut j: usize = 0;
    while i <= n
        invariant
            ctx.wf_base(),
            n == ctx.params.share_count,
            enc_keys@ == ctx.enc_keys->0@,
            shares@ == ctx.secret_shares->0@,
            enc_keys@.len() == n - 1,
            forall|k: int| 0 <= k < enc_keys@.len() ==> (#[trigger] enc_keys@[k])@.len() == 32,
            shares@.len() == n,
            1 <= i <= n + 1,
            j == if i <= ctx.party_num_int {
                (i - 1) as int
            } else {
                (i - 2) as int
            },
            out@.len() == j,
            forall|k: int|
                0 <= k < j ==> ({
                    let to = spec_sender_at(ctx.party_num_int, k);
                    &&& (#[trigger] out@[k]).to == to
                    &&& out@[k].key@ == spec_p2p_key("round3"@, ctx.party_num_int, to, ctx.uuid@)
                    &&& out@[k].pack.nonce@.len() == 12
                    &&& aead_dec(
                        ctx.enc_keys->0@[k]@,
                        out@[k].pack.nonce@,
                        out@[k].pack.ciphertext@,
                    ) == Some(ctx.secret_shares->0@[to - 1]@)
                }),
        decreases n + 1 - i,
    {
        if i != ctx.party_num_int {
            let key = &enc_keys[j];
            let share = &shares[(i - 1) as usize];
            match aes_encrypt(key.as_slice(), share.as_slice()) {
                Ok(pack) => {
                    let store_key = p2p_key("round3", ctx.party_num_int, i, ctx.uuid.as_str());
                    out.push(P2pOut { to: i, key: store_key, pack });
                    proof {
                        assert(spec_sender_at(ctx.party_num_int, out@.len() - 1) == i);
                    }
                },
                Err(_) => {
                    return Err(RoundFailure { round: 3, kind: FailureKind::Protocol });
                },
            }
            j = j + 1;
        }
        i = i + 1;
    }
    Ok(out)
}

/// When round 3 succeeds: every peer's sealed share authenticates and
/// decrypts under the pairwise key this party derived for that peer.
pub open spec fn kg_round3_ok(ctx: &GG18KeygenClientContext, packs: Seq<AeadPack>) -> bool {
    forall|j: int|
        0 <= j < packs.len() ==> ((#[trigger] packs[j]).nonce@.len() == 12 && aead_dec(
            ctx.enc_keys->0@[j]@,
            packs[j].nonce@,
            packs[j].ciphertext@,
        ) is Some)
}

/// The full, position-indexed share vector round 3 assembles: each peer's
/// decrypted share, with the party's own share at its position.
pub open spec fn kg_round3_shares(ctx: &GG18KeygenClientContext, packs: Seq<AeadPack>) -> Seq<
    Seq<u8>,
> {
    Seq::new(
        (packs.len() + 1) as nat,
        |k: int|
            if k < ctx.spec_pos() {
                aead_dec(ctx.enc_keys->0@[k]@, packs[k].nonce@, packs[k].ciphertext@)->0
            } else if k == ctx.spec_pos() {
                ctx.secret_shares->0@[k]@
            } else {
                aead_dec(
                    ctx.enc_keys->0@[k - 1]@,
                    packs[k - 1].nonce@,
                    packs[k - 1].ciphertext@,
                )->0
            },
    )
}

/// Round 3: decrypt each peer's sealed share under the pairwise key and
/// assemble the shares in party order, the party's own at its position. Any
/// pack that fails to authenticate fails the round.
pub fn gg18_keygen_client_round3(ctx: GG18KeygenClientContext, peer_packs: Vec<AeadPack>) -> (r:
    Result<GG18KeygenClientContext, RoundFailure>)
    requires
        ctx.wf_base(),
        ctx.enc_keys matches Some(ek) && ek@.len() == ctx.params.share_count - 1 && (forall|j: int|
            0 <= j < ek@.len() ==> (#[trigger] ek@[j])@.len() == 32),
        ctx.secret_shares matches Some(ss) && ss@.len() == ctx.params.share_count,
        peer_packs@.len() == ctx.params.share_count - 1,
    ensures
        (r is Ok) == kg_round3_ok(&ctx, peer_packs@),
        r matches Err(e) ==> e == (RoundFailure { round: 3, kind: FailureKind::Protocol }),
        r matches Ok(c) ==> ({
            &&& kg_header_eq(&c, &ctx)
            &&& c.bc1_vec == ctx.bc1_vec && c.party_keys == ctx.party_keys && c.own_secret
                == ctx.own_secret && c.decom_i == ctx.decom_i && c.decom_point == ctx.decom_point
                && c.y_sum == ctx.y_sum && c.public_key_address == ctx.public_key_address
                && c.vss_scheme == ctx.vss_scheme && c.secret_shares == ctx.secret_shares
                && c.enc_keys == ctx.enc_keys && c.point_vec == ctx.point_vec && c.dlog_proof
                == ctx.dlog_proof && c.shared_keys == ctx.shared_keys && c.vss_scheme_vec
                == ctx.vss_scheme_vec
            &&& (c.party_shares matches Some(ps) && byte_vec_views(ps@) == kg_round3_shares(
                &ctx,
                peer_packs@,
            ))
        }),
{
    let n = ctx.params.share_count;
    let enc_keys = match &ctx.enc_keys {
        Some(x) => x,
        None => {
            return Err(RoundFailure { round: 3, kind: FailureKind::Protocol });
        },
    };
    let shares = match &ctx.secret_shares {
        Some(x) => x,
        None => {
            return Err(RoundFailure { round: 3, kind: FailureKind::Protocol });
        },
    };
    let ghost all_shares = kg_round3_shares(&ctx, peer_packs@);
    let mut party_shares: Vec<Vec<u8>> = Vec::new();
    let mut i: u16 = 1;
    let mut j: usize = 0;
    while i <= n
        invariant
            ctx.wf_base(),
            n == ctx.params.share_count,
            all_shares == kg_round3_shares(&ctx, peer_packs@),
            enc_keys@ == ctx.enc_keys->0@,
            shares@ == ctx.secret_shares->0@,
            enc_keys@.len() == n - 1,
            forall|k: int| 0 <= k < enc_keys@.len() ==> (#[trigger] enc_keys@[k])@.len() == 32,
            shares@.len() == n,
            peer_packs@.len() == n - 1,
            1 <= i <= n + 1,
            j == if i <= ctx.party_num_int {
                (i - 1) as int
            } else {
                (i - 2) as int
            },
            party_shares@.len() == i - 1,
            forall|k: int| 0 <= k < i - 1 ==> (#[trigger] party_shares@[k])@ == all_shares[k],
            forall|k: int|
                0 <= k < j ==> ((#[trigger] peer_packs@[k]).nonce@.len() == 12 && aead_dec(
                    ctx.enc_keys->0@[k]@,
                    peer_packs@[k].nonce@,
                    peer_packs@[k].ciphertext@,
                ) is Some),
        decreases n + 1 - i,
    {
        if i == ctx.party_num_int {
            party_shares.push(clone_bytes(&shares[(i - 1) as usize]));
        } else {
            let pack = &peer_packs[j];
            if pack.nonce.len() != 12 {
                return Err(RoundFailure { round: 3, kind: FailureKind::Protocol });
            }
            let key = &enc_keys[j];
            match aes_decrypt(key.as_slice(), pack) {
                Ok(pt) => {
                    party_shares.push(pt);
                },
                Err(_) => {
                    return Err(RoundFailure { round: 3, kind: FailureKind::Protocol });
                },
            }
            j = j + 1;
        }
        i = i + 1;
    }
    proof {
        assert(byte_vec_views(party_shares@) =~= all_shares);
    }
    Ok(GG18KeygenClientContext { party_shares: Some(party_shares), ..ctx })
}

/// The round-4 broadcast: the party's VSS scheme.
pub fn keygen_round4_message(ctx: &GG18KeygenClientContext) -> (r: Entry)
    requires
        ctx.vss_scheme is Some,
    ensures
        r.key@ == spec_broadcast_key("round4"@, ctx.party_num_int, ctx.uuid@),
        r.value@ == ctx.vss_scheme->0@,
{
    let value = match &ctx.vss_scheme {
        Some(s) => s.clone(),
        None => String::new(),
    };
    Entry { key: broadcast_key("round4", ctx.party_num_int, ctx.uuid.as_str()), value }
}

/// Round 4: splice the party's VSS scheme into the peers' under its position
/// and take over the key pair and proof of the crypto sub-step (verify the
/// VSS schemes, construct the shared keys, prove knowledge of the secret);
/// a rejected sub-step fails the round.
pub fn gg18_keygen_client_round4(
    ctx: GG18KeygenClientContext,
    peer_vss: Vec<String>,
    keypair: Option<KeyPairOutcome>,
) -> (r: Result<GG18KeygenClientContext, RoundFailure>)
    requires
        ctx.wf_base(),
        ctx.vss_scheme is Some,
        peer_vss@.len() == ctx.params.share_count - 1,
    ensures
        (r is Ok) == (keypair is Some),
        r matches Err(e) ==> e == (RoundFailure { round: 4, kind: FailureKind::Protocol }),
        r matches Ok(c) ==> ({
            &&& kg_header_eq(&c, &ctx)
            &&& c.bc1_vec == ctx.bc1_vec && c.party_keys == ctx.party_keys && c.own_secret
                == ctx.own_secret && c.decom_i == ctx.decom_i && c.decom_point == ctx.decom_point
                && c.y_sum == ctx.y_sum && c.public_key_address == ctx.public_key_address
                && c.vss_scheme == ctx.vss_scheme && c.secret_shares == ctx.secret_shares
                && c.enc_keys == ctx.enc_keys && c.party_shares == ctx.party_shares && c.point_vec
                == ctx.point_vec
            &&& (c.vss_scheme_vec matches Some(v) && v@ == peer_vss@.insert(
                ctx.spec_pos(),
                ctx.vss_scheme->0,
            ))
            &&& c.shared_keys == Some(keypair->0.shared_keys)
            &&& c.dlog_proof == Some(keypair->0.dlog_proof)
        }),
{
    let kp = match keypair {
        Some(k) => k,
        None => {
            return Err(RoundFailure { round: 4, kind: FailureKind::Protocol });
        },
    };
    let own_vss = match &ctx.vss_scheme {
        Some(s) => s.clone(),
        None => {
            return Err(RoundFailure { round: 4, kind: FailureKind::Protocol });
        },
    };
    let pos = (ctx.party_num_int - 1) as usize;
    let vss_scheme_vec = merge_own_at(peer_vss, pos, own_vss);
    Ok(
        GG18KeygenClientContext {
            vss_scheme_vec: Some(vss_scheme_vec),
            shared_keys: Some(kp.shared_keys),
            dlog_proof: Some(kp.dlog_proof),
            ..ctx
        },
    )
}

/// The round-5 broadcast: the party's proof of knowledge of its secret.
pub fn keygen_round5_message(ctx: &GG18KeygenClientContext) -> (r: Entry)
    requires
        ctx.dlog_proof is Some,
    ensures
        r.key@ == spec_broadcast_key("round5"@, ctx.party_num_int, ctx.uuid@),
        r.value@ == ctx.dlog_proof->0@,
{
    let value = match &ctx.dlog_proof {
        Some(s) => s.clone(),
        None => String::new(),
    };
    Entry { key: broadcast_key("round5", ctx.party_num_int, ctx.uuid.as_str()), value }
}

/// Round 5: gate on the outcome of verifying every party's proof of
/// knowledge against the revealed points, and emit the long-term keystore
/// artifact. `paillier_keys` are the parties' Paillier public keys, one per
/// party, as carried by the round-1 broadcasts.
pub fn gg18_keygen_client_round5(
    ctx: GG18KeygenClientContext,
    dlog_ok: bool,
    paillier_keys: Vec<String>,
) -> (r: Result<KeygenArtifact, RoundFailure>)
    requires
        ctx.wf_base(),
        ctx.party_keys is Some,
        ctx.shared_keys is Some,
        ctx.vss_scheme_vec is Some,
        ctx.y_sum is Some,
        paillier_keys@.len() == ctx.params.share_count,
    ensures
        (r is Ok) == dlog_ok,
        r matches Err(e) ==> e == (RoundFailure { round: 5, kind: FailureKind::Protocol }),
        r matches Ok(a) ==> ({
            &&& a.party_keys == ctx.party_keys->0
            &&& a.shared_keys == ctx.shared_keys->0
            &&& a.party_num_int == ctx.party_num_int
            &&& a.vss_scheme_vec == ctx.vss_scheme_vec->0
            &&& a.paillier_key_vec == paillier_keys
            &&& a.y_sum == ctx.y_sum->0
        }),
{
    if !dlog_ok {
        return Err(RoundFailure { round: 5, kind: FailureKind::Protocol });
    }
    let party_keys = match ctx.party_keys {
        Some(s) => s,
        None => {
            return Err(RoundFailure { round: 5, kind: FailureKind::Protocol });
        },
    };
    let shared_keys = match ctx.shared_keys {
        Some(s) => s,
        None => {
            return Err(RoundFailure { round: 5, kind: FailureKind::Protocol });
        },
    };
    let vss_scheme_vec = match ctx.vss_scheme_vec {
        Some(s) => s,
        None => {
            return Err(RoundFailure { round: 5, kind: FailureKind::Protocol });
        },
    };
    let y_sum = match ctx.y_sum {
        Some(s) => s,
        None => {
            return Err(RoundFailure { round: 5, kind: FailureKind::Protocol });
        },
    };
    Ok(
        KeygenArtifact {
            party_keys,
            shared_keys,
            party_num_int: ctx.party_num_int,
            vss_scheme_vec,
            paillier_key_vec: paillier_keys,
            y_sum,
        },
    )
}

/// A party reconstructs the session's full point sequence exactly: its peers'
/// decommitted points with its own point at its position equal the underlying
/// per-party assignment `points`.
pub proof fn lemma_round2_points_reconstruct(
    ctx: &GG18KeygenClientContext,
    peer_decoms: Seq<DecomMsg>,
    points: Seq<Seq<u8>>,
)
    requires
        points.len() == peer_decoms.len() + 1,
        0 <= ctx.spec_pos() < points.len(),
        ctx.decom_point matches Some(p) && p@ == points[ctx.spec_pos()],
        forall|k: int|
            0 <= k < peer_decoms.len() ==> (#[trigger] peer_decoms[k].point@) == points[if k
                < ctx.spec_pos() {
                k
            } else {
                k + 1
            }],
    ensures
        kg_round2_points(ctx, peer_decoms) == points,
{
    assert(kg_round2_points(ctx, peer_decoms) =~= points);
}

/// The aggregated public key is identical on every party at the end of round
/// 2: two parties whose round-2 inputs are drawn from the same per-party
/// point assignment reconstruct the same point sequence, and the aggregated
/// key each stores (by this round's contract, `sum_points_spec` of its
/// reconstruction) is therefore the same.
pub proof fn lemma_y_sum_agreement(
    ctx_a: &GG18KeygenClientContext,
    peers_a: Seq<DecomMsg>,
    ctx_b: &GG18KeygenClientContext,
    peers_b: Seq<DecomMsg>,
    points: Seq<Seq<u8>>,
)
    requires
        points.len() == peers_a.len() + 1,
        points.len() == peers_b.len() + 1,
        0 <= ctx_a.spec_pos() < points.len(),
        0 <= ctx_b.spec_pos() < points.len(),
        ctx_a.decom_point matches Some(p) && p@ == points[ctx_a.spec_pos()],
        ctx_b.decom_point matches Some(p) && p@ == points[ctx_b.spec_pos()],
        forall|k: int|
            0 <= k < peers_a.len() ==> (#[trigger] peers_a[k].point@) == points[if k
                < ctx_a.spec_pos() {
                k
            } else {
                k + 1
            }],
        forall|k: int|
            0 <= k < peers_b.len() ==> (#[trigger] peers_b[k].point@) == points[if k
                < ctx_b.spec_pos() {
                k
            } else {
                k + 1
            }],
    ensures
        sum_points_spec(kg_round2_points(ctx_a, peers_a)) == sum_points_spec(
            kg_round2_points(ctx_b, peers_b),
        ),
{
    lemma_round2_points_reconstruct(ctx_a, peers_a, points);
    lemma_round2_points_reconstruct(ctx_b, peers_b, points);
}

} // verus!
