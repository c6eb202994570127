//! The per-party distributed signing state machine: rounds 0 through 9 over a
//! quorum of `threshold + 1` signers drawn from the keygen participants.
//!
//! Round 0 forms the quorum, rounds 1–3 run the multiplicative-to-additive
//! share conversion and reconstruct delta, round 4 assembles the point `R`,
//! rounds 5–8 run the five-phase commit/decommit proof of correctness, and
//! round 9 aggregates the partial signatures, verifies the result against the
//! aggregated public key, and reports it as hex text. The crypto suite's
//! sub-steps enter as opaque payloads and outcome values; the ordering,
//! splicing, equality checks, point arithmetic, final verification and output
//! formatting are verified here.

use vstd::prelude::*;
use crate::common::{Entry, PartySignup};
use crate::crypto::{
    bytes_eq, check_point, check_sig, ecdsa_valid, is_curve_point, is_valid_scalar, point_add,
    point_add_of, point_mul, point_mul_of, point_sum_defined, spec_pad_left,
};
use crate::errors::{FailureKind, RoundFailure};
use crate::hexutil::{hex_compact, hex_of, strip_zeros};
use crate::keygen::KeygenArtifact;
use crate::numeric::{dec_digits, dec_val, is_dec_string, parse_u16, u16_to_dec};
use crate::transport::{broadcast_key, merge_own_at, spec_broadcast_key};

verus! {

/// A party's signing context, filled monotonically round by round. The
/// keystore fields and the header are fixed at `new_context`.
#[derive(Debug)]
pub struct GG18SignClientContext {
    pub party_keys: String,
    pub shared_keys: String,
    pub party_id: u16,
    pub vss_scheme_vec: Vec<String>,
    pub paillier_key_vec: Vec<String>,
    pub y_sum: Vec<u8>,
    pub threshold: u16,
    pub party_num_int: u16,
    pub uuid: String,
    pub message: Vec<u8>,
    pub sign_keys: Option<String>,
    pub signers_vec: Option<Vec<u16>>,
    pub xi_com_vec: Option<Vec<String>>,
    pub com: Option<String>,
    pub decommit: Option<String>,
    pub round1_ans_vec: Option<Vec<String>>,
    pub bc1_vec: Option<Vec<String>>,
    pub beta_vec: Option<Vec<String>>,
    pub ni_vec: Option<Vec<String>>,
    pub round2_ans_vec: Option<Vec<String>>,
    pub m_b_gamma_rec_vec: Option<Vec<String>>,
    pub delta_inv: Option<Vec<u8>>,
    pub sigma: Option<String>,
    pub local_sig: Option<String>,
    pub r: Option<Vec<u8>>,
    pub phase5_com: Option<String>,
    pub phase_5a_decom: Option<String>,
    pub helgamal_proof: Option<String>,
    pub dlog_proof_rho: Option<String>,
    pub commit5a_vec: Option<Vec<String>>,
    pub phase5_com2: Option<String>,
    pub phase_5d_decom2: Option<String>,
    pub decom5a_includes_i: Option<Vec<Decom5aTriple>>,
    pub commit5c_vec: Option<Vec<String>>,
    pub s_i: Option<String>,
}

/// A peer's round-6 broadcast: the phase-5A decommitment with its two
/// zero-knowledge proofs.
#[derive(Debug)]
pub struct Decom5aTriple {
    pub decom: String,
    pub elgamal: String,
    pub dlog: String,
}

impl GG18SignClientContext {
    /// The header invariant fixed at signup: a sound threshold, a party
    /// number within the `threshold + 1` quorum, a digest-sized message and a
    /// full-size aggregated key encoding.
    pub open spec fn wf_base(&self) -> bool {
        &&& 1 <= self.threshold
        &&& self.threshold < u16::MAX - 1
        &&& 1 <= self.party_num_int <= self.threshold + 1
        &&& self.message@.len() <= 32
        &&& self.y_sum@.len() == 65
    }

    /// The party's zero-based position among the quorum's signers.
    pub open spec fn spec_pos(&self) -> int {
        self.party_num_int - 1
    }
}

/// The header and keystore fields never change after signup.
pub open spec fn sg_header_eq(c: &GG18SignClientContext, ctx: &GG18SignClientContext) -> bool {
    &&& c.party_keys == ctx.party_keys
    &&& c.shared_keys == ctx.shared_keys
    &&& c.party_id == ctx.party_id
    &&& c.vss_scheme_vec == ctx.vss_scheme_vec
    &&& c.paillier_key_vec == ctx.paillier_key_vec
    &&& c.y_sum == ctx.y_sum
    &&& c.threshold == ctx.threshold
    &&& c.party_num_int == ctx.party_num_int
    &&& c.uuid == ctx.uuid
    &&& c.message == ctx.message
}

/// The fields round 0 fills are unchanged.
pub open spec fn sg_r0_fields_eq(c: &GG18SignClientContext, ctx: &GG18SignClientContext) -> bool {
    c.sign_keys == ctx.sign_keys && c.signers_vec == ctx.signers_vec && c.xi_com_vec
        == ctx.xi_com_vec
}

/// The fields round 1 fills are unchanged.
pub open spec fn sg_r1_fields_eq(c: &GG18SignClientContext, ctx: &GG18SignClientContext) -> bool {
    c.com == ctx.com && c.decommit == ctx.decommit && c.round1_ans_vec == ctx.round1_ans_vec
}

/// The fields round 2 fills are unchanged.
pub open spec fn sg_r2_fields_eq(c: &GG18SignClientContext, ctx: &GG18SignClientContext) -> bool {
    c.bc1_vec == ctx.bc1_vec && c.beta_vec == ctx.beta_vec && c.ni_vec == ctx.ni_vec
        && c.round2_ans_vec == ctx.round2_ans_vec
}

/// The fields round 3 fills are unchanged.
pub open spec fn sg_r3_fields_eq(c: &GG18SignClientContext, ctx: &GG18SignClientContext) -> bool {
    c.m_b_gamma_rec_vec == ctx.m_b_gamma_rec_vec && c.delta_inv == ctx.delta_inv && c.sigma
        == ctx.sigma
}

/// The field round 4 fills is unchanged.
pub open spec fn sg_r4_fields_eq(c: &GG18SignClientContext, ctx: &GG18SignClientContext) -> bool {
    c.r == ctx.r
}

/// The fields round 5 fills are unchanged.
pub open spec fn sg_r5_fields_eq(c: &GG18SignClientContext, ctx: &GG18SignClientContext) -> bool {
    c.local_sig == ctx.local_sig && c.phase5_com == ctx.phase5_com && c.phase_5a_decom
        == ctx.phase_5a_decom && c.helgamal_proof == ctx.helgamal_proof && c.dlog_proof_rho
        == ctx.dlog_proof_rho && c.commit5a_vec == ctx.commit5a_vec
}

/// The fields round 6 fills are unchanged.
pub open spec fn sg_r6_fields_eq(c: &GG18SignClientContext, ctx: &GG18SignClientContext) -> bool {
    c.phase5_com2 == ctx.phase5_com2 && c.phase_5d_decom2 == ctx.phase_5d_decom2
        && c.decom5a_includes_i == ctx.decom5a_includes_i
}

/// The field round 7 fills is unchanged.
pub open spec fn sg_r7_fields_eq(c: &GG18SignClientContext, ctx: &GG18SignClientContext) -> bool {
    c.commit5c_vec == ctx.commit5c_vec
}

/// The field round 8 fills is unchanged.
pub open spec fn sg_r8_fields_eq(c: &GG18SignClientContext, ctx: &GG18SignClientContext) -> bool {
    c.s_i == ctx.s_i
}

/// Starts a signing session: the keystore artifact, the already-decoded
/// message, and the party's signup position in the `threshold + 1` quorum.
pub fn gg18_sign_client_new_context(
    t: u16,
    key_store: KeygenArtifact,
    message: Vec<u8>,
    signup: PartySignup,
) -> (r: GG18SignClientContext)
    requires
        1 <= t < u16::MAX - 1,
        1 <= signup.number <= t + 1,
        message@.len() <= 32,
        key_store.y_sum@.len() == 65,
    ensures
        r.wf_base(),
        r.party_keys == key_store.party_keys,
        r.shared_keys == key_store.shared_keys,
        r.party_id == key_store.party_num_int,
        r.vss_scheme_vec == key_store.vss_scheme_vec,
        r.paillier_key_vec == key_store.paillier_key_vec,
        r.y_sum == key_store.y_sum,
        r.threshold == t,
        r.party_num_int == signup.number,
        r.uuid == signup.uuid,
        r.message == message,
        r.sign_keys is None && r.signers_vec is None && r.xi_com_vec is None && r.com is None
            && r.decommit is None && r.round1_ans_vec is None && r.bc1_vec is None && r.beta_vec
            is None && r.ni_vec is None && r.round2_ans_vec is None && r.m_b_gamma_rec_vec is None
            && r.delta_inv is None && r.sigma is None && r.local_sig is None && r.r is None
            && r.phase5_com is None && r.phase_5a_decom is None && r.helgamal_proof is None
            && r.dlog_proof_rho is None && r.commit5a_vec is None && r.phase5_com2 is None
            && r.phase_5d_decom2 is None && r.decom5a_includes_i is None && r.commit5c_vec is None
            && r.s_i is None,
{
    GG18SignClientContext {
        party_keys: key_store.party_keys,
        shared_keys: key_store.shared_keys,
        party_id: key_store.party_num_int,
        vss_scheme_vec: key_store.vss_scheme_vec,
        paillier_key_vec: key_store.paillier_key_vec,
        y_sum: key_store.y_sum,
        threshold: t,
        party_num_int: signup.number,
        uuid: signup.uuid,
        message,
        sign_keys: None,
        signers_vec: None,
        xi_com_vec: None,
        com: None,
        decommit: None,
        round1_ans_vec: None,
        bc1_vec: None,
        beta_vec: None,
        ni_vec: None,
        round2_ans_vec: None,
        m_b_gamma_rec_vec: None,
        delta_inv: None,
        sigma: None,
        local_sig: None,
        r: None,
        phase5_com: None,
        phase_5a_decom: None,
        helgamal_proof: None,
        dlog_proof_rho: None,
        commit5a_vec: None,
        phase5_com2: None,
        phase_5d_decom2: None,
        decom5a_includes_i: None,
        commit5c_vec: None,
        s_i: None,
    }
}

/// The round-0 broadcast: the party's original keygen index, in decimal.
pub fn sign_round0_message(ctx: &GG18SignClientContext) -> (r: Entry)
    ensures
        r.key@ == spec_broadcast_key("round0"@, ctx.party_num_int, ctx.uuid@),
        r.value@ == dec_digits(ctx.party_id as nat),
{
    Entry {
        key: broadcast_key("round0", ctx.party_num_int, ctx.uuid.as_str()),
        value: u16_to_dec(ctx.party_id),
    }
}

/// Whether the polled round-0 payloads are well-formed: each peer announced a
/// decimal keygen index of at least 1 that fits the index type.
pub open spec fn sg_round0_ok(ctx: &GG18SignClientContext, peer_ids: Seq<Seq<char>>) -> bool {
    &&& ctx.party_id >= 1
    &&& forall|j: int|
        0 <= j < peer_ids.len() ==> (is_dec_string(#[trigger] peer_ids[j]) && 1 <= dec_val(
            peer_ids[j],
        ) <= u16::MAX)
}

/// The zero-based signers the quorum consists of, in signup order: each
/// party's keygen index less one, this party's own at its position.
pub open spec fn sg_signers(ctx: &GG18SignClientContext, peer_ids: Seq<Seq<char>>) -> Seq<u16> {
    Seq::new(
        (peer_ids.len() + 1) as nat,
        |k: int|
            if k < ctx.spec_pos() {
                (dec_val(peer_ids[k]) - 1) as u16
            } else if k == ctx.spec_pos() {
                (ctx.party_id - 1) as u16
            } else {
                (dec_val(peer_ids[k - 1]) - 1) as u16
            },
    )
}

/// Builds the quorum's signer list from the polled round-0 payloads: every
/// peer's announced keygen index, decimal-decoded and made zero-based, with
/// the party's own spliced in at its signup position. A payload that is not a
/// decimal index of at least 1 fails the round as malformed.
pub fn sign_round0_signers(ctx: &GG18SignClientContext, peer_ids: &Vec<String>) -> (r: Result<
    Vec<u16>,
    RoundFailure,
>)
    requires
        ctx.wf_base(),
        peer_ids@.len() == ctx.threshold,
    ensures
        (r is Ok) == sg_round0_ok(ctx, peer_ids.deep_view()),
        r matches Err(e) ==> e == (RoundFailure { round: 0, kind: FailureKind::Transport }),
        r matches Ok(v) ==> v@ == sg_signers(ctx, peer_ids.deep_view()),
{
    let quorum = ctx.threshold + 1;
    if ctx.party_id < 1 {
        return Err(RoundFailure { round: 0, kind: FailureKind::Transport });
    }
    let ghost ids = peer_ids.deep_view();
    let mut signers: Vec<u16> = Vec::new();
    let mut i: u16 = 1;
    let mut j: usize = 0;
    while i <= quorum
        invariant
            ctx.wf_base(),
            ctx.party_id >= 1,
            quorum == ctx.threshold + 1,
            ids == peer_ids.deep_view(),
            ids.len() == ctx.threshold,
            peer_ids@.len() == ctx.threshold,
            1 <= i <= quorum + 1,
            j == if i <= ctx.party_num_int {
                (i - 1) as int
            } else {
                (i - 2) as int
            },
            signers@.len() == i - 1,
            forall|k: int| 0 <= k < i - 1 ==> signers@[k] == sg_signers(ctx, ids)[k],
            forall|k: int|
                0 <= k < j ==> (is_dec_string(#[trigger] ids[k]) && 1 <= dec_val(ids[k])
                    <= u16::MAX),
        decreases quorum + 1 - i,
    {
        if i == ctx.party_num_int {
            signers.push(ctx.party_id - 1);
        } else {
            proof {
                assert(ids[j as int] == peer_ids@[j as int]@);
            }
            match parse_u16(peer_ids[j].as_str()) {
                Some(id) => {
                    if id < 1 {
                        return Err(RoundFailure { round: 0, kind: FailureKind::Transport });
                    }
                    signers.push(id - 1);
                },
                None => {
                    return Err(RoundFailure { round: 0, kind: FailureKind::Transport });
                },
            }
            j = j + 1;
        }
        i = i + 1;
    }
    proof {
        assert(signers@ =~= sg_signers(ctx, ids));
    }
    Ok(signers)
}

/// Round 0: store the quorum's signer list together with the outcomes of the
/// crypto sub-steps run on it (the party's ephemeral signing keys and the
/// commitments to every party's share).
pub fn gg18_sign_client_round0(
    ctx: GG18SignClientContext,
    peer_ids: Vec<String>,
    sign_keys: Option<String>,
    xi_com_vec: Vec<String>,
) -> (r: Result<GG18SignClientContext, RoundFailure>)
    requires
        ctx.wf_base(),
        peer_ids@.len() == ctx.threshold,
    ensures
        (r is Ok) == (sg_round0_ok(&ctx, peer_ids.deep_view()) && sign_keys is Some),
        r matches Err(e) ==> e.round == 0 && (e.kind == FailureKind::Transport || e.kind
            == FailureKind::Protocol),
        r matches Ok(c) ==> ({
            &&& sg_header_eq(&c, &ctx)
            &&& (c.signers_vec matches Some(v) && v@ == sg_signers(&ctx, peer_ids.deep_view()))
            &&& c.sign_keys == sign_keys
            &&& c.xi_com_vec == Some(xi_com_vec)
            &&& sg_r1_fields_eq(&c, &ctx) && sg_r2_fields_eq(&c, &ctx) && sg_r3_fields_eq(&c, &ctx)
                && sg_r4_fields_eq(&c, &ctx) && sg_r5_fields_eq(&c, &ctx) && sg_r6_fields_eq(
                &c,
                &ctx,
            ) && sg_r7_fields_eq(&c, &ctx) && sg_r8_fields_eq(&c, &ctx)
        }),
{
    let signers = match sign_round0_signers(&ctx, &peer_ids) {
        Ok(v) => v,
        Err(e) => {
            return Err(e);
        },
    };
    let keys = match sign_keys {
        Some(k) => k,
        None => {
            return Err(RoundFailure { round: 0, kind: FailureKind::Protocol });
        },
    };
    Ok(
        GG18SignClientContext {
            signers_vec: Some(signers),
            sign_keys: Some(keys),
            xi_com_vec: Some(xi_com_vec),
            ..ctx
        },
    )
}

/// What the party creates entering round 1: the phase-1 commitment and
/// decommitment to gamma, and its MtA `MessageA`; the round-1 broadcast is
/// the pair `(com, m_a_k)`, serialized by the host.
#[derive(Debug)]
pub struct Round1SignLocal {
    pub com: String,
    pub decommit: String,
    pub m_a_k: String,
}

/// Round 1: keep the commitment and decommitment, and the peers' raw round-1
/// answers for the responder steps of round 2.
pub fn gg18_sign_client_round1(
    ctx: GG18SignClientContext,
    local: Round1SignLocal,
    round1_ans_vec: Vec<String>,
) -> (r: GG18SignClientContext)
    requires
        ctx.wf_base(),
        round1_ans_vec@.len() == ctx.threshold,
    ensures
        sg_header_eq(&r, &ctx),
        r.com == Some(local.com),
        r.decommit == Some(local.decommit),
        r.round1_ans_vec == Some(round1_ans_vec),
        sg_r0_fields_eq(&r, &ctx) && sg_r2_fields_eq(&r, &ctx) && sg_r3_fields_eq(&r, &ctx)
            && sg_r4_fields_eq(&r, &ctx) && sg_r5_fields_eq(&r, &ctx) && sg_r6_fields_eq(&r, &ctx)
            && sg_r7_fields_eq(&r, &ctx) && sg_r8_fields_eq(&r, &ctx),
{
    GG18SignClientContext {
        com: Some(local.com),
        decommit: Some(local.decommit),
        round1_ans_vec: Some(round1_ans_vec),
        ..ctx
    }
}

/// The outcome of one MtA responder step for one peer: the two `MessageB`s to
/// send back and the party's additive shares from the two conversions.
#[derive(Debug)]
pub struct MtaOut {
    pub m_b_gamma: String,
    pub m_b_w: String,
    pub beta_gamma: String,
    pub beta_wi: String,
}

/// Round 2: splice the party's phase-1 commitment into the peers' at its
/// position, and keep the additive shares of the per-peer MtA responder
/// steps; a failed MtA step fails the round. The polled point-to-point
/// answers are kept raw for round 3.
pub fn gg18_sign_client_round2(
    ctx: GG18SignClientContext,
    peer_bc1: Vec<String>,
    mta: Option<Vec<MtaOut>>,
    round2_ans_vec: Vec<String>,
) -> (r: Result<GG18SignClientContext, RoundFailure>)
    requires
        ctx.wf_base(),
        ctx.com is Some,
        peer_bc1@.len() == ctx.threshold,
        round2_ans_vec@.len() == ctx.threshold,
        mta matches Some(v) ==> v@.len() == ctx.threshold,
    ensures
        (r is Ok) == (mta is Some),
        r matches Err(e) ==> e == (RoundFailure { round: 2, kind: FailureKind::Protocol }),
        r matches Ok(c) ==> ({
            &&& sg_header_eq(&c, &ctx)
            &&& sg_r0_fields_eq(&c, &ctx) && sg_r1_fields_eq(&c, &ctx) && sg_r3_fields_eq(&c, &ctx)
                && sg_r4_fields_eq(&c, &ctx) && sg_r5_fields_eq(&c, &ctx) && sg_r6_fields_eq(
                &c,
                &ctx,
            ) && sg_r7_fields_eq(&c, &ctx) && sg_r8_fields_eq(&c, &ctx)
            &&& (c.bc1_vec matches Some(v) && v@ == peer_bc1@.insert(ctx.spec_pos(), ctx.com->0))
            &&& (c.beta_vec matches Some(v) && v@.len() == ctx.threshold && (forall|j: int|
                0 <= j < v@.len() ==> (#[trigger] v@[j]) == mta->0@[j].beta_gamma))
            &&& (c.ni_vec matches Some(v) && v@.len() == ctx.threshold && (forall|j: int|
                0 <= j < v@.len() ==> (#[trigger] v@[j]) == mta->0@[j].beta_wi))
            &&& c.round2_ans_vec == Some(round2_ans_vec)
        }),
{
    let mta_vec = match mta {
        Some(v) => v,
        None => {
            return Err(RoundFailure { round: 2, kind: FailureKind::Protocol });
        },
    };
    let own_com = match &ctx.com {
        Some(s) => s.clone(),
        None => {
            return Err(RoundFailure { round: 2, kind: FailureKind::Protocol });
        },
    };
    let pos = (ctx.party_num_int - 1) as usize;
    let bc1_vec = merge_own_at(peer_bc1, pos, own_com);
    let mut beta_vec: Vec<String> = Vec::new();
    let mut ni_vec: Vec<String> = Vec::new();
    let count = mta_vec.len();
    let mut j: usize = 0;
    while j < count
        invariant
            count == mta_vec@.len(),
            0 <= j <= count,
            beta_vec@.len() == j,
            ni_vec@.len() == j,
            forall|k: int| 0 <= k < j ==> (#[trigger] beta_vec@[k]) == mta_vec@[k].beta_gamma,
            forall|k: int| 0 <= k < j ==> (#[trigger] ni_vec@[k]) == mta_vec@[k].beta_wi,
        decreases count - j,
    {
        beta_vec.push(mta_vec[j].beta_gamma.clone());
        ni_vec.push(mta_vec[j].beta_wi.clone());
        j = j + 1;
    }
    Ok(
        GG18SignClientContext {
            bc1_vec: Some(bc1_vec),
            beta_vec: Some(beta_vec),
            ni_vec: Some(ni_vec),
            round2_ans_vec: Some(round2_ans_vec),
            ..ctx
        },
    )
}

/// A received `MessageB` pair after the verification sub-step: the extracted
/// additive shares, the public key the peer's proof embeds, and the updated
/// commitment it must equal.
#[derive(Debug)]
pub struct MbVerified {
    pub m_b_gamma: String,
    pub alpha: String,
    pub miu: String,
    pub b_proof_pk: Vec<u8>,
    pub expected_g_w: Vec<u8>,
}

/// When round 3 succeeds: every peer's proofs verified and every embedded
/// proof key equals the expected updated commitment to that peer's share.
pub open spec fn sg_round3_ok(mb: &Option<Vec<MbVerified>>) -> bool {
    mb matches Some(v) && (forall|j: int|
        0 <= j < v@.len() ==> (#[trigger] v@[j]).b_proof_pk@ == v@[j].expected_g_w@)
}

/// The round-3 broadcast: the party's delta share.
pub fn sign_round3_message(ctx: &GG18SignClientContext, delta_i: &String) -> (r: Entry)
    ensures
        r.key@ == spec_broadcast_key("round3"@, ctx.party_num_int, ctx.uuid@),
        r.value@ == delta_i@,
{
    Entry { key: broadcast_key("round3", ctx.party_num_int, ctx.uuid.as_str()), value: delta_i.clone() }
}

/// Round 3: check each peer's verified `MessageB` against the expected
/// commitment to its share, and keep the gamma messages, the reconstructed
/// `delta^{-1}` and the party's sigma share. A failed verification or a
/// mismatched proof key fails the round.
pub fn gg18_sign_client_round3(
    ctx: GG18SignClientContext,
    mb: Option<Vec<MbVerified>>,
    sigma: String,
    delta_inv: Vec<u8>,
) -> (r: Result<GG18SignClientContext, RoundFailure>)
    requires
        ctx.wf_base(),
        mb matches Some(v) ==> v@.len() == ctx.threshold,
    ensures
        (r is Ok) == sg_round3_ok(&mb),
        r matches Err(e) ==> e == (RoundFailure { round: 3, kind: FailureKind::Protocol }),
        r matches Ok(c) ==> ({
            &&& sg_header_eq(&c, &ctx)
            &&& sg_r0_fields_eq(&c, &ctx) && sg_r1_fields_eq(&c, &ctx) && sg_r2_fields_eq(&c, &ctx)
                && sg_r4_fields_eq(&c, &ctx) && sg_r5_fields_eq(&c, &ctx) && sg_r6_fields_eq(
                &c,
                &ctx,
            ) && sg_r7_fields_eq(&c, &ctx) && sg_r8_fields_eq(&c, &ctx)
            &&& (c.m_b_gamma_rec_vec matches Some(v) && v@.len() == ctx.threshold && (forall|
                j: int,
            |
                0 <= j < v@.len() ==> (#[trigger] v@[j]) == mb->0@[j].m_b_gamma))
            &&& c.delta_inv == Some(delta_inv)
            &&& c.sigma == Some(sigma)
        }),
{
    let mb_vec = match mb {
        Some(v) => v,
        None => {
            return Err(RoundFailure { round: 3, kind: FailureKind::Protocol });
        },
    };
    let count = mb_vec.len();
    let mut m_b_gamma_rec: Vec<String> = Vec::new();
    let mut j: usize = 0;
    while j < count
        invariant
            mb == Some(mb_vec),
            count == mb_vec@.len(),
            0 <= j <= count,
            m_b_gamma_rec@.len() == j,
            forall|k: int| 0 <= k < j ==> (#[trigger] m_b_gamma_rec@[k]) == mb_vec@[k].m_b_gamma,
            forall|k: int|
                0 <= k < j ==> (#[trigger] mb_vec@[k]).b_proof_pk@ == mb_vec@[k].expected_g_w@,
        decreases count - j,
    {
        let m = &mb_vec[j];
        if !bytes_eq(&m.b_proof_pk, &m.expected_g_w) {
            proof {
                assert(mb_vec@[j as int].b_proof_pk@ != mb_vec@[j as int].expected_g_w@);
                if sg_round3_ok(&mb) {
                    assert(mb->0 == mb_vec);
                    assert(mb->0@[j as int].b_proof_pk@ == mb->0@[j as int].expected_g_w@);
                }
                assert(!sg_round3_ok(&mb));
            }
            return Err(RoundFailure { round: 3, kind: FailureKind::Protocol });
        }
        m_b_gamma_rec.push(m.m_b_gamma.clone());
        j = j + 1;
    }
    Ok(
        GG18SignClientContext {
            m_b_gamma_rec_vec: Some(m_b_gamma_rec),
            delta_inv: Some(delta_inv),
            sigma: Some(sigma),
            ..ctx
        },
    )
}

/// The round-4 broadcast: the party's decommitment revealing gamma.
pub fn sign_round4_message(ctx: &GG18SignClientContext) -> (r: Entry)
    requires
        ctx.decommit is Some,
    ensures
        r.key@ == spec_broadcast_key("round4"@, ctx.party_num_int, ctx.uuid@),
        r.value@ == ctx.decommit->0@,
{
    let value = match &ctx.decommit {
        Some(s) => s.clone(),
        None => String::new(),
    };
    Entry { key: broadcast_key("round4", ctx.party_num_int, ctx.uuid.as_str()), value }
}

/// When round 4 succeeds: the phase-4 aggregation produced a curve point, the
/// party's own revealed `g^gamma` is one, `delta^{-1}` is a proper scalar,
/// and adding the party's own term does not hit the point at infinity.
pub open spec fn sg_round4_ok(
    ctx: &GG18SignClientContext,
    phase4_r: &Option<Vec<u8>>,
    own_g_gamma: Seq<u8>,
) -> bool {
    &&& phase4_r matches Some(p) && is_curve_point(p@)
    &&& is_curve_point(own_g_gamma)
    &&& is_valid_scalar(ctx.delta_inv->0@)
    &&& point_sum_defined(phase4_r->0@, point_mul_of(own_g_gamma, ctx.delta_inv->0@))
}

/// Round 4: complete the point `R` by adding the party's own
/// `g^{gamma_i} * delta^{-1}` to the phase-4 aggregation of the peers'
/// decommitted terms.
pub fn gg18_sign_client_round4(
    ctx: GG18SignClientContext,
    phase4_r: Option<Vec<u8>>,
    own_g_gamma: Vec<u8>,
) -> (r: Result<GG18SignClientContext, RoundFailure>)
    requires
        ctx.wf_base(),
        ctx.delta_inv is Some,
    ensures
        (r is Ok) == sg_round4_ok(&ctx, &phase4_r, own_g_gamma@),
        r matches Err(e) ==> e == (RoundFailure { round: 4, kind: FailureKind::Protocol }),
        r matches Ok(c) ==> ({
            &&& sg_header_eq(&c, &ctx)
            &&& sg_r0_fields_eq(&c, &ctx) && sg_r1_fields_eq(&c, &ctx) && sg_r2_fields_eq(&c, &ctx)
                && sg_r3_fields_eq(&c, &ctx) && sg_r5_fields_eq(&c, &ctx) && sg_r6_fields_eq(
                &c,
                &ctx,
            ) && sg_r7_fields_eq(&c, &ctx) && sg_r8_fields_eq(&c, &ctx)
            &&& (c.r matches Some(v) && v@ == point_add_of(
                phase4_r->0@,
                point_mul_of(own_g_gamma@, ctx.delta_inv->0@),
            ) && v@.len() == 65)
        }),
{
    let p4 = match phase4_r {
        Some(p) => p,
        None => {
            return Err(RoundFailure { round: 4, kind: FailureKind::Protocol });
        },
    };
    if !check_point(p4.as_slice()) {
        return Err(RoundFailure { round: 4, kind: FailureKind::Protocol });
    }
    let dinv = match &ctx.delta_inv {
        Some(d) => crate::crypto::clone_bytes(d),
        None => {
            return Err(RoundFailure { round: 4, kind: FailureKind::Protocol });
        },
    };
    let own_term = match point_mul(own_g_gamma.as_slice(), dinv.as_slice()) {
        Ok(v) => v,
        Err(_) => {
            return Err(RoundFailure { round: 4, kind: FailureKind::Protocol });
        },
    };
    let big_r = match point_add(p4.as_slice(), own_term.as_slice()) {
        Ok(v) => v,
        Err(_) => {
            return Err(RoundFailure { round: 4, kind: FailureKind::Protocol });
        },
    };
    Ok(GG18SignClientContext { r: Some(big_r), ..ctx })
}

/// What the party derives locally after `R` is known: the local signature
/// state, the phase-5A commitment and decommitment, and the two
/// zero-knowledge proofs the decommitment travels with.
#[derive(Debug)]
pub struct Phase5Local {
    pub local_sig: String,
    pub phase5_com: String,
    pub phase_5a_decom: String,
    pub helgamal_proof: String,
    pub dlog_proof_rho: String,
}

/// The round-5 broadcast: the party's phase-5A commitment.
pub fn sign_round5_message(ctx: &GG18SignClientContext, local: &Phase5Local) -> (r: Entry)
    ensures
        r.key@ == spec_broadcast_key("round5"@, ctx.party_num_int, ctx.uuid@),
        r.value@ == local.phase5_com@,
{
    Entry {
        key: broadcast_key("round5", ctx.party_num_int, ctx.uuid.as_str()),
        value: local.phase5_com.clone(),
    }
}

/// Round 5: keep the local phase-5 artifacts and splice the party's own
/// commitment into the peers' at its position.
pub fn gg18_sign_client_round5(
    ctx: GG18SignClientContext,
    local: Phase5Local,
    peer_commit5a: Vec<String>,
) -> (r: GG18SignClientContext)
    requires
        ctx.wf_base(),
        peer_commit5a@.len() == ctx.threshold,
    ensures
        sg_header_eq(&r, &ctx),
        sg_r0_fields_eq(&r, &ctx) && sg_r1_fields_eq(&r, &ctx) && sg_r2_fields_eq(&r, &ctx)
            && sg_r3_fields_eq(&r, &ctx) && sg_r4_fields_eq(&r, &ctx) && sg_r6_fields_eq(&r, &ctx)
            && sg_r7_fields_eq(&r, &ctx) && sg_r8_fields_eq(&r, &ctx),
        r.local_sig == Some(local.local_sig),
        r.phase5_com == Some(local.phase5_com),
        r.phase_5a_decom == Some(local.phase_5a_decom),
        r.helgamal_proof == Some(local.helgamal_proof),
        r.dlog_proof_rho == Some(local.dlog_proof_rho),
        r.commit5a_vec matches Some(v) && v@ == peer_commit5a@.insert(
            ctx.spec_pos(),
            local.phase5_com,
        ),
{
    let pos = (ctx.party_num_int - 1) as usize;
    let commit5a_vec = merge_own_at(peer_commit5a, pos, local.phase5_com.clone());
    GG18SignClientContext {
        local_sig: Some(local.local_sig),
        phase5_com: Some(local.phase5_com),
        phase_5a_decom: Some(local.phase_5a_decom),
        helgamal_proof: Some(local.helgamal_proof),
        dlog_proof_rho: Some(local.dlog_proof_rho),
        commit5a_vec: Some(commit5a_vec),
        ..ctx
    }
}

/// The outcome of the phase-5C sub-step: the second commitment and the
/// decommitment it will later reveal.
#[derive(Debug)]
pub struct Phase5cOut {
    pub phase5_com2: String,
    pub phase_5d_decom2: String,
}

/// Round 6: splice the party's own decommitment triple into the peers' at its
/// position, and keep the phase-5C commitment pair; a rejected phase-5C
/// sub-step fails the round.
pub fn gg18_sign_client_round6(
    ctx: GG18SignClientContext,
    peer_triples: Vec<Decom5aTriple>,
    phase5c: Option<Phase5cOut>,
) -> (r: Result<GG18SignClientContext, RoundFailure>)
    requires
        ctx.wf_base(),
        ctx.phase_5a_decom is Some,
        ctx.helgamal_proof is Some,
        ctx.dlog_proof_rho is Some,
        peer_triples@.len() == ctx.threshold,
    ensures
        (r is Ok) == (phase5c is Some),
        r matches Err(e) ==> e == (RoundFailure { round: 6, kind: FailureKind::Protocol }),
        r matches Ok(c) ==> ({
            &&& sg_header_eq(&c, &ctx)
            &&& sg_r0_fields_eq(&c, &ctx) && sg_r1_fields_eq(&c, &ctx) && sg_r2_fields_eq(&c, &ctx)
                && sg_r3_fields_eq(&c, &ctx) && sg_r4_fields_eq(&c, &ctx) && sg_r5_fields_eq(
                &c,
                &ctx,
            ) && sg_r7_fields_eq(&c, &ctx) && sg_r8_fields_eq(&c, &ctx)
            &&& (c.decom5a_includes_i matches Some(v) && v@ == peer_triples@.insert(
                ctx.spec_pos(),
                (Decom5aTriple {
                    decom: ctx.phase_5a_decom->0,
                    elgamal: ctx.helgamal_proof->0,
                    dlog: ctx.dlog_proof_rho->0,
                }),
            ))
            &&& c.phase5_com2 == Some(phase5c->0.phase5_com2)
            &&& c.phase_5d_decom2 == Some(phase5c->0.phase_5d_decom2)
        }),
{
    let p5c = match phase5c {
        Some(p) => p,
        None => {
            return Err(RoundFailure { round: 6, kind: FailureKind::Protocol });
        },
    };
    let own = Decom5aTriple {
        decom: match &ctx.phase_5a_decom {
            Some(s) => s.clone(),
            None => String::new(),
        },
        elgamal: match &ctx.helgamal_proof {
            Some(s) => s.clone(),
            None => String::new(),
        },
        dlog: match &ctx.dlog_proof_rho {
            Some(s) => s.clone(),
            None => String::new(),
        },
    };
    let pos = (ctx.party_num_int - 1) as usize;
    let decom5a_includes_i = merge_own_at(peer_triples, pos, own);
    Ok(
        GG18SignClientContext {
            decom5a_includes_i: Some(decom5a_includes_i),
            phase5_com2: Some(p5c.phase5_com2),
            phase_5d_decom2: Some(p5c.phase_5d_decom2),
            ..ctx
        },
    )
}

/// The round-7 broadcast: the party's phase-5C commitment.
pub fn sign_round7_message(ctx: &GG18SignClientContext) -> (r: Entry)
    requires
        ctx.phase5_com2 is Some,
    ensures
        r.key@ == spec_broadcast_key("round7"@, ctx.party_num_int, ctx.uuid@),
        r.value@ == ctx.phase5_com2->0@,
{
    let value = match &ctx.phase5_com2 {
        Some(s) => s.clone(),
        None => String::new(),
    };
    Entry { key: broadcast_key("round7", ctx.party_num_int, ctx.uuid.as_str()), value }
}

/// Round 7: splice the party's own phase-5C commitment into the peers' at its
/// position.
pub fn gg18_sign_client_round7(ctx: GG18SignClientContext, peer_commit5c: Vec<String>) -> (r:
    GG18SignClientContext)
    requires
        ctx.wf_base(),
        ctx.phase5_com2 is Some,
        peer_commit5c@.len() == ctx.threshold,
    ensures
        sg_header_eq(&r, &ctx),
        sg_r0_fields_eq(&r, &ctx) && sg_r1_fields_eq(&r, &ctx) && sg_r2_fields_eq(&r, &ctx)
            && sg_r3_fields_eq(&r, &ctx) && sg_r4_fields_eq(&r, &ctx) && sg_r5_fields_eq(&r, &ctx)
            && sg_r6_fields_eq(&r, &ctx) && sg_r8_fields_eq(&r, &ctx),
        r.commit5c_vec matches Some(v) && v@ == peer_commit5c@.insert(
            ctx.spec_pos(),
            ctx.phase5_com2->0,
        ),
{
    let own = match &ctx.phase5_com2 {
        Some(s) => s.clone(),
        None => String::new(),
    };
    let pos = (ctx.party_num_int - 1) as usize;
    let commit5c_vec = merge_own_at(peer_commit5c, pos, own);
    GG18SignClientContext { commit5c_vec: Some(commit5c_vec), ..ctx }
}

/// The round-8 broadcast: the party's phase-5D decommitment.
pub fn sign_round8_message(ctx: &GG18SignClientContext) -> (r: Entry)
    requires
        ctx.phase_5d_decom2 is Some,
    ensures
        r.key@ == spec_broadcast_key("round8"@, ctx.party_num_int, ctx.uuid@),
        r.value@ == ctx.phase_5d_decom2->0@,
{
    let value = match &ctx.phase_5d_decom2 {
        Some(s) => s.clone(),
        None => String::new(),
    };
    Entry { key: broadcast_key("round8", ctx.party_num_int, ctx.uuid.as_str()), value }
}

/// The phase-5A decommitments of a decommitment-triple vector, in order: what
/// the phase-5D sub-step consumes.
pub fn phase5a_decom_projection(triples: &Vec<Decom5aTriple>) -> (r: Vec<String>)
    ensures
        r@.len() == triples@.len(),
        forall|j: int| 0 <= j < r@.len() ==> (#[trigger] r@[j]) == triples@[j].decom,
{
    let n = triples.len();
    let mut out: Vec<String> = Vec::new();
    let mut i: usize = 0;
    while i < n
        invariant
            n == triples@.len(),
            0 <= i <= n,
            out@.len() == i,
            forall|j: int| 0 <= j < i ==> (#[trigger] out@[j]) == triples@[j].decom,
        decreases n - i,
    {
        out.push(triples[i].decom.clone());
        i = i + 1;
    }
    out
}

/// Round 8: gate on the phase-5D sub-step and keep the party's partial
/// signature share.
pub fn gg18_sign_client_round8(ctx: GG18SignClientContext, s_i: Option<String>) -> (r: Result<
    GG18SignClientContext,
    RoundFailure,
>)
    requires
        ctx.wf_base(),
    ensures
        (r is Ok) == (s_i is Some),
        r matches Err(e) ==> e == (RoundFailure { round: 8, kind: FailureKind::Protocol }),
        r matches Ok(c) ==> ({
            &&& sg_header_eq(&c, &ctx)
            &&& sg_r0_fields_eq(&c, &ctx) && sg_r1_fields_eq(&c, &ctx) && sg_r2_fields_eq(&c, &ctx)
                && sg_r3_fields_eq(&c, &ctx) && sg_r4_fields_eq(&c, &ctx) && sg_r5_fields_eq(
                &c,
                &ctx,
            ) && sg_r6_fields_eq(&c, &ctx) && sg_r7_fields_eq(&c, &ctx)
            &&& c.s_i == s_i
        }),
{
    let share = match s_i {
        Some(s) => s,
        None => {
            return Err(RoundFailure { round: 8, kind: FailureKind::Protocol });
        },
    };
    Ok(GG18SignClientContext { s_i: Some(share), ..ctx })
}

/// The round-9 broadcast: the party's partial signature share.
pub fn sign_round9_message(ctx: &GG18SignClientContext) -> (r: Entry)
    requires
        ctx.s_i is Some,
    ensures
        r.key@ == spec_broadcast_key("round9"@, ctx.party_num_int, ctx.uuid@),
        r.value@ == ctx.s_i->0@,
{
    let value = match &ctx.s_i {
        Some(s) => s.clone(),
        None => String::new(),
    };
    Entry { key: broadcast_key("round9", ctx.party_num_int, ctx.uuid.as_str()), value }
}

/// The aggregated signature as the final sub-step reports it: the two 32-byte
/// components and the recovery id.
#[derive(Debug)]
pub struct SigOutcome {
    pub r: Vec<u8>,
    pub s: Vec<u8>,
    pub recid: u8,
}

/// When round 9 succeeds: the aggregation produced well-sized components and
/// the signature passes standard ECDSA verification against the aggregated
/// public key and the (digest-width padded) message.
pub open spec fn sg_round9_ok(ctx: &GG18SignClientContext, sig: &Option<SigOutcome>) -> bool {
    &&& sig matches Some(s) && s.r@.len() == 32 && s.s@.len() == 32
    &&& ecdsa_valid(spec_pad_left(ctx.message@, 32), sig->0.r@ + sig->0.s@, ctx.y_sum@)
}

/// Round 9: verify the aggregated signature against the aggregated public key
/// and report it as `[r_hex, s_hex, recid_decimal]` — lowercase hex without
/// leading zeros for the two components, decimal for the recovery id. A
/// failed aggregation fails the round as a protocol fault, a signature the
/// standard verifier rejects as a signature-verification fault.
pub fn gg18_sign_client_round9(ctx: GG18SignClientContext, sig: Option<SigOutcome>) -> (res:
    Result<Vec<String>, RoundFailure>)
    requires
        ctx.wf_base(),
    ensures
        (res is Ok) == sg_round9_ok(&ctx, &sig),
        res matches Err(e) ==> e.round == 9 && (e.kind == FailureKind::Protocol || e.kind
            == FailureKind::SignatureVerify),
        sig is None ==> (res matches Err(e) && e.kind == FailureKind::Protocol),
        res matches Ok(out) ==> ({
            &&& out@.len() == 3
            &&& out@[0]@ == strip_zeros(hex_of(sig->0.r@))
            &&& out@[1]@ == strip_zeros(hex_of(sig->0.s@))
            &&& out@[2]@ == dec_digits(sig->0.recid as nat)
        }),
{
    let sg = match sig {
        Some(s) => s,
        None => {
            return Err(RoundFailure { round: 9, kind: FailureKind::Protocol });
        },
    };
    if sg.r.len() != 32 || sg.s.len() != 32 {
        return Err(RoundFailure { round: 9, kind: FailureKind::Protocol });
    }
    if !check_sig(sg.r.as_slice(), sg.s.as_slice(), ctx.message.as_slice(), ctx.y_sum.as_slice()) {
        return Err(RoundFailure { round: 9, kind: FailureKind::SignatureVerify });
    }
    let r_hex = hex_compact(sg.r.as_slice());
    let s_hex = hex_compact(sg.s.as_slice());
    let recid_dec = u16_to_dec(sg.recid as u16);
    let mut out: Vec<String> = Vec::new();
    out.push(r_hex);
    out.push(s_hex);
    out.push(recid_dec);
    Ok(out)
}

} // verus!
