//! The signaling server's core: a transient key-value store and one signup
//! counter per protocol kind.
//!
//! The server is a blind relay: parties deposit and poll opaque payloads
//! under structured keys. Every operation is gated on a bearer-token check;
//! signups are additionally gated on the task record fetched from the
//! external task service. The HTTP surface, the token check and the
//! counterparty process launch are the host's; their outcomes enter here as
//! plain values.

use vstd::prelude::*;
use crate::common::{Entry, PartySignup, TaskRecord};
use crate::errors::ServerRejection;

verus! {

/// The map a sequence of entries denotes: later entries shadow earlier ones
/// under the same key. A well-formed store never relies on shadowing.
pub open spec fn map_of(entries: Seq<Entry>) -> Map<Seq<char>, Seq<char>>
    decreases entries.len(),
{
    if entries.len() == 0 {
        Map::empty()
    } else {
        map_of(entries.drop_last()).insert(entries.last().key@, entries.last().value@)
    }
}

/// No two entries share a key.
pub open spec fn unique_keys(entries: Seq<Entry>) -> bool {
    forall|i: int, j: int|
        0 <= i < j < entries.len() ==> (#[trigger] entries[i].key@) != (#[trigger] entries[j].key@)
}

/// With unique keys, `map_of` contains exactly the entries' keys, each bound
/// to its entry's value.
proof fn lemma_map_of_index(entries: Seq<Entry>, i: int)
    requires
        unique_keys(entries),
        0 <= i < entries.len(),
    ensures
        map_of(entries).contains_key(entries[i].key@),
        map_of(entries)[entries[i].key@] == entries[i].value@,
    decreases entries.len(),
{
    if i == entries.len() - 1 {
    } else {
        lemma_map_of_index(entries.drop_last(), i);
        assert(entries.drop_last()[i] == entries[i]);
        assert(entries[i].key@ != entries.last().key@);
    }
}

/// A key held by `map_of` is the key of some entry.
proof fn lemma_map_of_key_origin(entries: Seq<Entry>, k: Seq<char>)
    requires
        map_of(entries).contains_key(k),
    ensures
        exists|i: int| 0 <= i < entries.len() && (#[trigger] entries[i].key@) == k,
    decreases entries.len(),
{
    if entries.len() > 0 {
        if entries.last().key@ == k {
            assert(entries[entries.len() - 1].key@ == k);
        } else {
            lemma_map_of_key_origin(entries.drop_last(), k);
            let i = choose|i: int|
                0 <= i < entries.drop_last().len() && (#[trigger] entries.drop_last()[i].key@) == k;
            assert(entries[i].key@ == k);
        }
    }
}

/// Replacing the value at index `i` (key unchanged) acts on the map as an
/// insert of the new value under that key.
proof fn lemma_map_of_update(entries: Seq<Entry>, i: int, e: Entry)
    requires
        unique_keys(entries),
        0 <= i < entries.len(),
        e.key@ == entries[i].key@,
    ensures
        map_of(entries.update(i, e)) == map_of(entries).insert(e.key@, e.value@),
    decreases entries.len(),
{
    let updated = entries.update(i, e);
    if i == entries.len() - 1 {
        assert(updated.drop_last() =~= entries.drop_last());
        assert(updated.last() == e);
        assert(map_of(updated) =~= map_of(entries).insert(e.key@, e.value@));
    } else {
        assert(updated.drop_last() =~= entries.drop_last().update(i, e));
        assert(entries.drop_last()[i] == entries[i]);
        lemma_map_of_update(entries.drop_last(), i, e);
        assert(updated.last() == entries.last());
        assert(entries.last().key@ != e.key@);
        assert(map_of(updated) =~= map_of(entries).insert(e.key@, e.value@));
    }
}

/// The in-memory key-value store.
pub struct Store {
    entries: Vec<Entry>,
}

impl View for Store {
    type V = Map<Seq<char>, Seq<char>>;

    closed spec fn view(&self) -> Map<Seq<char>, Seq<char>> {
        map_of(self.entries@)
    }
}

impl Store {
    /// The store's invariant: one entry per key.
    pub closed spec fn wf(&self) -> bool {
        unique_keys(self.entries@)
    }

    /// An empty store.
    pub fn new() -> (r: Store)
        ensures
            r.wf(),
            r@ == Map::<Seq<char>, Seq<char>>::empty(),
    {
        Store { entries: Vec::new() }
    }

    /// Looks a key up; `None` when the store holds nothing under it.
    pub fn get(&self, key: &String) -> (r: Option<String>)
        requires
            self.wf(),
        ensures
            match r {
                Some(v) => self@.contains_key(key@) && v@ == self@[key@],
                None => !self@.contains_key(key@),
            },
    {
        let n = self.entries.len();
        let mut i: usize = 0;
        while i < n
            invariant
                self.wf(),
                n == self.entries@.len(),
                0 <= i <= n,
                forall|j: int| 0 <= j < i ==> (#[trigger] self.entries@[j].key@) != key@,
            decreases n - i,
        {
            if self.entries[i].key == *key {
                proof {
                    lemma_map_of_index(self.entries@, i as int);
                }
                return Some(self.entries[i].value.clone());
            }
            i = i + 1;
        }
        proof {
            if self@.contains_key(key@) {
                lemma_map_of_key_origin(self.entries@, key@);
            }
        }
        None
    }

    /// Inserts or overwrites the value under a key.
    pub fn set(&mut self, key: String, value: String)
        requires
            old(self).wf(),
        ensures
            final(self).wf(),
            final(self)@ == old(self)@.insert(key@, value@),
    {
        let n = self.entries.len();
        let mut i: usize = 0;
        while i < n
            invariant
                self.wf(),
                self == old(self),
                n == self.entries@.len(),
                0 <= i <= n,
                forall|j: int| 0 <= j < i ==> (#[trigger] self.entries@[j].key@) != key@,
            decreases n - i,
        {
            if self.entries[i].key == key {
                let ghost before = self.entries@;
                let e = Entry { key, value };
                proof {
                    lemma_map_of_update(before, i as int, e);
                }
                self.entries[i] = e;
                assert(self.entries@ =~= before.update(i as int, e));
                return;
            }
            i = i + 1;
        }
        let ghost before = self.entries@;
        self.entries.push(Entry { key, value });
        proof {
            assert(self.entries@.drop_last() =~= before);
            assert forall|a: int, b: int|
                0 <= a < b < self.entries@.len() implies (#[trigger] self.entries@[a].key@)
                != (#[trigger] self.entries@[b].key@) by {
                if b == self.entries@.len() - 1 {
                    assert(self.entries@[a] == before[a]);
                }
            }
        }
    }
}

/// The party number the counter hands out next: one more within the session,
/// or 1 when the session is full and a fresh one opens.
pub open spec fn spec_signup_number(cur: u16, bound: u16) -> u16 {
    if cur < bound {
        (cur + 1) as u16
    } else {
        1u16
    }
}

/// The session UUID after a signup: unchanged within the session, the fresh
/// one when numbering restarts.
pub open spec fn spec_signup_uuid(cur_number: u16, bound: u16, cur_uuid: Seq<char>, fresh: Seq<char>) -> Seq<char> {
    if cur_number < bound {
        cur_uuid
    } else {
        fresh
    }
}

/// One signup under a counter: increments the party number while the session
/// has room, else restarts numbering at 1 under `fresh_uuid`.
pub fn signup_step(cur: &PartySignup, bound: u16, fresh_uuid: String) -> (r: PartySignup)
    ensures
        r.number == spec_signup_number(cur.number, bound),
        r.uuid@ == spec_signup_uuid(cur.number, bound, cur.uuid@, fresh_uuid@),
{
    if cur.number < bound {
        PartySignup { number: cur.number + 1, uuid: cur.uuid.clone() }
    } else {
        PartySignup { number: 1, uuid: fresh_uuid }
    }
}

/// Whether the task record allows a signup of the given protocol kind: the
/// type matches and the task is still in status `created`.
pub open spec fn task_allows(task: &TaskRecord, expected_type: Seq<char>) -> bool {
    task.task_type@ == expected_type && task.status@ == "created"@
}

/// Executable form of the task gate.
pub fn task_gate(task: &TaskRecord, expected_type: &str) -> (r: bool)
    ensures
        r == task_allows(task, expected_type@),
{
    let expected = String::from_str(expected_type);
    let created = String::from_str("created");
    task.task_type == expected && task.status == created
}

/// Whether an Authorization header value carries a bearer token: the
/// `"Bearer "` scheme prefix followed by the token itself.
pub open spec fn spec_bearer_token(header: Seq<char>) -> Option<Seq<char>> {
    if header.len() >= 7 && header.subrange(0, 7) == "Bearer "@ {
        Some(header.skip(7))
    } else {
        None
    }
}

/// Extracts the bearer token from an Authorization header value; `None` when
/// the scheme prefix is missing. A request whose header yields no token is
/// refused as FORBIDDEN.
pub fn bearer_token_of(header: &str) -> (r: Option<String>)
    ensures
        r matches Some(t) ==> spec_bearer_token(header@) == Some(t@),
        r is None ==> spec_bearer_token(header@) is None,
{
    proof {
        reveal_strlit("Bearer ");
    }
    let len = header.unicode_len();
    if len < 7 {
        return None;
    }
    let prefix = "Bearer ";
    let mut i: usize = 0;
    while i < 7
        invariant
            0 <= i <= 7,
            7 <= len == header@.len(),
            prefix@ == "Bearer "@,
            prefix@.len() == 7,
            forall|j: int| 0 <= j < i ==> header@[j] == prefix@[j],
        decreases 7 - i,
    {
        proof {
            reveal_strlit("Bearer ");
        }
        if header.get_char(i) != prefix.get_char(i) {
            proof {
                assert(header@.subrange(0, 7)[i as int] != "Bearer "@[i as int]);
            }
            return None;
        }
        i = i + 1;
    }
    proof {
        assert(header@.subrange(0, 7) =~= "Bearer "@);
    }
    let token = header.substring_char(7, len);
    proof {
        assert(token@ =~= header@.skip(7));
    }
    Some(String::from_str(token))
}

/// The whole server: the relay store and the two long-lived signup counters.
pub struct ServerState {
    pub store: Store,
    pub keygen_signup: PartySignup,
    pub sign_signup: PartySignup,
}

impl ServerState {
    pub open spec fn wf(&self) -> bool {
        self.store.wf()
    }

    /// A fresh server: empty store, both counters at 0 under their initial
    /// session UUIDs.
    pub fn new(keygen_uuid: String, sign_uuid: String) -> (r: ServerState)
        ensures
            r.wf(),
            r.store@ == Map::<Seq<char>, Seq<char>>::empty(),
            r.keygen_signup.number == 0 && r.keygen_signup.uuid@ == keygen_uuid@,
            r.sign_signup.number == 0 && r.sign_signup.uuid@ == sign_uuid@,
    {
        ServerState {
            store: Store::new(),
            keygen_signup: PartySignup { number: 0, uuid: keygen_uuid },
            sign_signup: PartySignup { number: 0, uuid: sign_uuid },
        }
    }

    /// `POST /get`: look an entry up. Requires a valid bearer token; a key the
    /// store does not hold answers `Ok(None)`.
    pub fn handle_get(&self, auth_ok: bool, key: &String) -> (r: Result<Option<Entry>, ServerRejection>)
        requires
            self.wf(),
        ensures
            !auth_ok ==> r == Err::<Option<Entry>, ServerRejection>(ServerRejection::Forbidden),
            auth_ok ==> match r {
                Ok(Some(e)) => self.store@.contains_key(key@) && e.key@ == key@ && e.value@
                    == self.store@[key@],
                Ok(None) => !self.store@.contains_key(key@),
                Err(_) => false,
            },
    {
        if !auth_ok {
            return Err(ServerRejection::Forbidden);
        }
        match self.store.get(key) {
            Some(v) => Ok(Some(Entry { key: key.clone(), value: v })),
            None => Ok(None),
        }
    }

    /// `POST /set`: insert or overwrite an entry. Requires a valid bearer
    /// token; a late writer overwrites an earlier entry under the same key.
    pub fn handle_set(&mut self, auth_ok: bool, entry: Entry) -> (r: Result<(), ServerRejection>)
        requires
            old(self).wf(),
        ensures
            final(self).wf(),
            !auth_ok ==> r == Err::<(), ServerRejection>(ServerRejection::Forbidden) && *final(self)
                == *old(self),
            auth_ok ==> r == Ok::<(), ServerRejection>(()) && final(self).store@ == old(
                self,
            ).store@.insert(entry.key@, entry.value@) && final(self).keygen_signup == old(
                self,
            ).keygen_signup && final(self).sign_signup == old(self).sign_signup,
    {
        if !auth_ok {
            return Err(ServerRejection::Forbidden);
        }
        self.store.set(entry.key, entry.value);
        Ok(())
    }

    /// `POST /signupkeygen`: enroll a party into the current keygen session.
    ///
    /// The bearer token must be valid (else FORBIDDEN) and the task must be a
    /// `keygeneration` task in status `created` (else BAD-REQUEST). The
    /// counter then advances; `spawn_ok` reports whether the host could launch
    /// the server-side counterparty afterwards — a failed launch answers
    /// SERVICE-UNAVAILABLE, the counter having already advanced.
    pub fn signup_keygen(
        &mut self,
        auth_ok: bool,
        task: &TaskRecord,
        parties: u16,
        fresh_uuid: String,
        spawn_ok: bool,
    ) -> (r: Result<PartySignup, ServerRejection>)
        requires
            old(self).wf(),
        ensures
            final(self).wf(),
            final(self).store@ == old(self).store@,
            final(self).sign_signup == old(self).sign_signup,
            !auth_ok ==> r == Err::<PartySignup, ServerRejection>(ServerRejection::Forbidden)
                && *final(self) == *old(self),
            auth_ok && !task_allows(task, "keygeneration"@) ==> r == Err::<
                PartySignup,
                ServerRejection,
            >(ServerRejection::BadRequest) && *final(self) == *old(self),
            auth_ok && task_allows(task, "keygeneration"@) ==> {
                &&& final(self).keygen_signup.number == spec_signup_number(
                    old(self).keygen_signup.number,
                    parties,
                )
                &&& final(self).keygen_signup.uuid@ == spec_signup_uuid(
                    old(self).keygen_signup.number,
                    parties,
                    old(self).keygen_signup.uuid@,
                    fresh_uuid@,
                )
                &&& spawn_ok ==> (r matches Ok(p) && p.number == final(self).keygen_signup.number
                    && p.uuid@ == final(self).keygen_signup.uuid@)
                &&& !spawn_ok ==> r == Err::<PartySignup, ServerRejection>(
                    ServerRejection::ServiceUnavailable,
                )
            },
    {
        if !auth_ok {
            return Err(ServerRejection::Forbidden);
        }
        if !task_gate(task, "keygeneration") {
            return Err(ServerRejection::BadRequest);
        }
        let next = signup_step(&self.keygen_signup, parties, fresh_uuid);
        self.keygen_signup = PartySignup { number: next.number, uuid: next.uuid.clone() };
        if !spawn_ok {
            return Err(ServerRejection::ServiceUnavailable);
        }
        Ok(next)
    }

    /// `POST /signupsign`: enroll a party into the current signing session.
    ///
    /// Identical in shape to the keygen signup; the task must be a `signing`
    /// task in status `created`, and the session bound is `threshold + 1`
    /// signers.
    pub fn signup_sign(
        &mut self,
        auth_ok: bool,
        task: &TaskRecord,
        threshold: u16,
        fresh_uuid: String,
        spawn_ok: bool,
    ) -> (r: Result<PartySignup, ServerRejection>)
        requires
            old(self).wf(),
            threshold < u16::MAX,
        ensures
            final(self).wf(),
            final(self).store@ == old(self).store@,
            final(self).keygen_signup == old(self).keygen_signup,
            !auth_ok ==> r == Err::<PartySignup, ServerRejection>(ServerRejection::Forbidden)
                && *final(self) == *old(self),
            auth_ok && !task_allows(task, "signing"@) ==> r == Err::<
                PartySignup,
                ServerRejection,
            >(ServerRejection::BadRequest) && *final(self) == *old(self),
            auth_ok && task_allows(task, "signing"@) ==> {
                &&& final(self).sign_signup.number == spec_signup_number(
                    old(self).sign_signup.number,
                    (threshold + 1) as u16,
                )
                &&& final(self).sign_signup.uuid@ == spec_signup_uuid(
                    old(self).sign_signup.number,
                    (threshold + 1) as u16,
                    old(self).sign_signup.uuid@,
                    fresh_uuid@,
                )
                &&& spawn_ok ==> (r matches Ok(p) && p.number == final(self).sign_signup.number
                    && p.uuid@ == final(self).sign_signup.uuid@)
                &&& !spawn_ok ==> r == Err::<PartySignup, ServerRejection>(
                    ServerRejection::ServiceUnavailable,
                )
            },
    {
        if !auth_ok {
            return Err(ServerRejection::Forbidden);
        }
        if !task_gate(task, "signing") {
            return Err(ServerRejection::BadRequest);
        }
        let next = signup_step(&self.sign_signup, threshold + 1, fresh_uuid);
        self.sign_signup = PartySignup { number: next.number, uuid: next.uuid.clone() };
        if !spawn_ok {
            return Err(ServerRejection::ServiceUnavailable);
        }
        Ok(next)
    }
}

/// The signup state after `k` successful signups under a counter that started
/// a fresh session: party number and session UUID, with `fresh[j]` the UUID
/// that the `j+1`-th signup would mint on a wrap.
pub open spec fn signup_after(k: nat, bound: u16, u0: Seq<char>, fresh: Seq<Seq<char>>) -> (u16, Seq<char>)
    decreases k,
{
    if k == 0 {
        (0u16, u0)
    } else {
        let prev = signup_after((k - 1) as nat, bound, u0, fresh);
        (
            spec_signup_number(prev.0, bound),
            spec_signup_uuid(prev.0, bound, prev.1, fresh[k - 1]),
        )
    }
}

/// Within one session, the k-th successful signup returns party number k — the
/// minimum of k and the bound — and the session UUID stays the initial one.
pub proof fn lemma_signup_session(k: nat, bound: u16, u0: Seq<char>, fresh: Seq<Seq<char>>)
    requires
        1 <= k <= bound,
    ensures
        signup_after(k, bound, u0, fresh).0 == k,
        signup_after(k, bound, u0, fresh).1 == u0,
    decreases k,
{
    if k == 1 {
        assert(signup_after(0, bound, u0, fresh) == (0u16, u0));
        assert(signup_after(1, bound, u0, fresh).0 == spec_signup_number(0u16, bound));
    } else {
        lemma_signup_session((k - 1) as nat, bound, u0, fresh);
        assert(signup_after(k, bound, u0, fresh).0 == spec_signup_number(
            signup_after((k - 1) as nat, bound, u0, fresh).0,
            bound,
        ));
    }
}

/// When the session is full, the next signup restarts numbering at 1 under the
/// fresh UUID minted at that call.
pub proof fn lemma_signup_wraps(bound: u16, u0: Seq<char>, fresh: Seq<Seq<char>>)
    requires
        bound >= 1,
    ensures
        signup_after((bound + 1) as nat, bound, u0, fresh).0 == 1,
        signup_after((bound + 1) as nat, bound, u0, fresh).1 == fresh[bound as int],
{
    lemma_signup_session(bound as nat, bound, u0, fresh);
}

/// Reading a key after writing it returns exactly the written value,
/// whatever the store held before.
pub proof fn lemma_get_after_set(m: Map<Seq<char>, Seq<char>>, k: Seq<char>, v: Seq<char>)
    ensures
        m.insert(k, v).contains_key(k),
        m.insert(k, v)[k] == v,
{
}

} // verus!
