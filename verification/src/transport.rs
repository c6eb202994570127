//! The transport key scheme and message assembly.
//!
//! Every exchanged message is stored on the signaling server under a key
//! `{round}-{sender}-{uuid}` (broadcast) or `{round}-{sender}-{receiver}-{uuid}`
//! (point-to-point). A polling party waits for one entry per peer, in
//! ascending sender order with itself skipped, and splices its own message
//! back in at its party index to obtain the full, position-indexed vector of
//! the round's messages.

use vstd::prelude::*;
use crate::numeric::{dec_digits, u16_to_dec};
use crate::server::Store;

verus! {

/// The key under which party `party` broadcasts in round `round` of the
/// session `uuid`.
pub open spec fn spec_broadcast_key(round: Seq<char>, party: u16, uuid: Seq<char>) -> Seq<char> {
    round + seq!['-'] + dec_digits(party as nat) + seq!['-'] + uuid
}

/// The key under which party `from` addresses party `to` in round `round` of
/// the session `uuid`.
pub open spec fn spec_p2p_key(round: Seq<char>, from: u16, to: u16, uuid: Seq<char>) -> Seq<char> {
    round + seq!['-'] + dec_digits(from as nat) + seq!['-'] + dec_digits(to as nat) + seq!['-']
        + uuid
}

/// Builds a broadcast key.
pub fn broadcast_key(round: &str, party: u16, uuid: &str) -> (r: String)
    ensures
        r@ == spec_broadcast_key(round@, party, uuid@),
{
    proof {
        reveal_strlit("-");
    }
    let mut s = String::new();
    s.append(round);
    s.append("-");
    let num = u16_to_dec(party);
    s.append(num.as_str());
    s.append("-");
    s.append(uuid);
    proof {
        assert("-"@ =~= seq!['-']);
        assert(s@ =~= spec_broadcast_key(round@, party, uuid@));
    }
    s
}

/// Builds a point-to-point key.
pub fn p2p_key(round: &str, from: u16, to: u16, uuid: &str) -> (r: String)
    ensures
        r@ == spec_p2p_key(round@, from, to, uuid@),
{
    proof {
        reveal_strlit("-");
    }
    let mut s = String::new();
    s.append(round);
    s.append("-");
    let f = u16_to_dec(from);
    s.append(f.as_str());
    s.append("-");
    let t = u16_to_dec(to);
    s.append(t.as_str());
    s.append("-");
    s.append(uuid);
    proof {
        assert("-"@ =~= seq!['-']);
        assert(s@ =~= spec_p2p_key(round@, from, to, uuid@));
    }
    s
}

/// The party number of the `j`-th sender a poller waits for: senders run
/// ascending from 1, skipping the poller itself.
pub open spec fn spec_sender_at(self_num: u16, j: int) -> u16 {
    if j + 1 < self_num {
        (j + 1) as u16
    } else {
        (j + 2) as u16
    }
}

/// The ordered broadcast keys party `self_num` polls for in a round with
/// `count` parties: one per peer, ascending, itself skipped.
pub fn poll_broadcast_targets(self_num: u16, count: u16, round: &str, uuid: &str) -> (r: Vec<
    String,
>)
    requires
        1 <= self_num <= count,
        count < u16::MAX,
    ensures
        r@.len() == count - 1,
        forall|j: int|
            0 <= j < r@.len() ==> (#[trigger] r@[j])@ == spec_broadcast_key(
                round@,
                spec_sender_at(self_num, j),
                uuid@,
            ),
{
    let mut keys: Vec<String> = Vec::new();
    let mut i: u16 = 1;
    while i <= count
        invariant
            1 <= self_num <= count < u16::MAX,
            1 <= i <= count + 1,
            keys@.len() == if i <= self_num {
                i - 1
            } else {
                i - 2
            },
            forall|j: int|
                0 <= j < keys@.len() ==> (#[trigger] keys@[j])@ == spec_broadcast_key(
                    round@,
                    spec_sender_at(self_num, j),
                    uuid@,
                ),
        decreases count + 1 - i,
    {
        if i != self_num {
            keys.push(broadcast_key(round, i, uuid));
            proof {
                assert(spec_sender_at(self_num, keys@.len() - 1) == i);
            }
        }
        i = i + 1;
    }
    keys
}

/// The ordered point-to-point keys party `self_num` polls for: the messages
/// each peer addressed to it in this round.
pub fn poll_p2p_targets(self_num: u16, count: u16, round: &str, uuid: &str) -> (r: Vec<String>)
    requires
        1 <= self_num <= count,
        count < u16::MAX,
    ensures
        r@.len() == count - 1,
        forall|j: int|
            0 <= j < r@.len() ==> (#[trigger] r@[j])@ == spec_p2p_key(
                round@,
                spec_sender_at(self_num, j),
                self_num,
                uuid@,
            ),
{
    let mut keys: Vec<String> = Vec::new();
    let mut i: u16 = 1;
    while i <= count
        invariant
            1 <= self_num <= count < u16::MAX,
            1 <= i <= count + 1,
            keys@.len() == if i <= self_num {
                i - 1
            } else {
                i - 2
            },
            forall|j: int|
                0 <= j < keys@.len() ==> (#[trigger] keys@[j])@ == spec_p2p_key(
                    round@,
                    spec_sender_at(self_num, j),
                    self_num,
                    uuid@,
                ),
        decreases count + 1 - i,
    {
        if i != self_num {
            keys.push(p2p_key(round, i, self_num, uuid));
            proof {
                assert(spec_sender_at(self_num, keys@.len() - 1) == i);
            }
        }
        i = i + 1;
    }
    keys
}

/// One sweep of the poll loop over a store: the payloads under `targets`, in
/// order, or `None` while any of them is still missing. A real poller repeats
/// the sweep on a fixed interval until every expected sender has written;
/// with fewer live peers than expected the sweep never turns `Some`.
pub fn collect_from_store(store: &Store, targets: &Vec<String>) -> (r: Option<Vec<String>>)
    requires
        store.wf(),
    ensures
        r is Some <==> (forall|j: int|
            0 <= j < targets@.len() ==> store@.contains_key(#[trigger] targets@[j]@)),
        r matches Some(v) ==> v@.len() == targets@.len() && (forall|j: int|
            0 <= j < targets@.len() ==> (#[trigger] v@[j])@ == store@[targets@[j]@]),
{
    let n = targets.len();
    let mut out: Vec<String> = Vec::new();
    let mut i: usize = 0;
    while i < n
        invariant
            store.wf(),
            n == targets@.len(),
            0 <= i <= n,
            out@.len() == i,
            forall|j: int| 0 <= j < i ==> store@.contains_key(#[trigger] targets@[j]@),
            forall|j: int| 0 <= j < i ==> (#[trigger] out@[j])@ == store@[targets@[j]@],
        decreases n - i,
    {
        match store.get(&targets[i]) {
            Some(v) => {
                out.push(v);
            },
            None => {
                return None;
            },
        }
        i = i + 1;
    }
    Some(out)
}

/// Splices a party's own round message into the polled peer messages at the
/// party's position, yielding the round's messages indexed by party.
pub fn merge_own_at<T>(peers: Vec<T>, pos: usize, own: T) -> (r: Vec<T>)
    requires
        pos <= peers@.len(),
    ensures
        r@ == peers@.insert(pos as int, own),
{
    let mut v = peers;
    v.insert(pos, own);
    v
}

/// Splicing a party's own message back into the peers' messages reconstructs
/// the round's full message vector: every party that starts from the same
/// per-party messages `all` rebuilds exactly `all`, whatever its own position.
pub proof fn lemma_merge_own_round_trip<T>(all: Seq<T>, i: int)
    requires
        0 <= i < all.len(),
    ensures
        all.remove(i).insert(i, all[i]) =~= all,
{
    let rebuilt = all.remove(i).insert(i, all[i]);
    assert forall|j: int| 0 <= j < all.len() implies rebuilt[j] == all[j] by {
        if j < i {
            assert(rebuilt[j] == all.remove(i)[j]);
        } else if j > i {
            assert(rebuilt[j] == all.remove(i)[j - 1]);
        }
    }
}

} // verus!
