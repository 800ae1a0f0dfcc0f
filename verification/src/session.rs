//! The session/token authority: an in-memory registry mapping bearer
//! tokens to session records.
//!
//! A session is immutable once created; expiry is enforced by comparison
//! at every lookup (lazy expiry), never by mutation. Tokens are opaque
//! strings with a random component; the registry is modelled as a map
//! from token text to session record, and every operation's contract is
//! an equation over the pure transition functions [`spec_create`],
//! [`spec_validate`], [`spec_revoke`] and [`spec_sweep`].

use vstd::prelude::*;

use vstd::hash_map::StringHashMap;

verus! {

/// Fixed session lifetime: 24 hours from issuance.
pub const SESSION_TTL_SECONDS: u64 = 86400;

/// The mathematical model of one session record.
pub ghost struct SessionSpec {
    pub user_id: Seq<char>,
    pub token: Seq<char>,
    pub created_at: u64,
    pub expires_at: u64,
}

/// One issued session: who it belongs to, its bearer token, and its
/// issuance and expiry instants in seconds of Unix time.
pub struct UserSession {
    pub user_id: String,
    pub token: String,
    pub expires_at: u64,
    pub created_at: u64,
}

impl View for UserSession {
    type V = SessionSpec;

    open spec fn view(&self) -> SessionSpec {
        SessionSpec {
            user_id: self.user_id@,
            token: self.token@,
            created_at: self.created_at,
            expires_at: self.expires_at,
        }
    }
}

impl Clone for UserSession {
    /// A session copy equals the original; callers get a copy so the
    /// registry's own record can never be mutated through it.
    fn clone(&self) -> (r: Self)
        ensures
            r == *self,
    {
        let r = UserSession {
            user_id: self.user_id.clone(),
            token: self.token.clone(),
            expires_at: self.expires_at,
            created_at: self.created_at,
        };
        r
    }
}

/// Registry contents after inserting a fresh session.
pub open spec fn spec_create(
    m: Map<Seq<char>, SessionSpec>,
    token: Seq<char>,
    user: Seq<char>,
    now: u64,
) -> Map<Seq<char>, SessionSpec> {
    m.insert(
        token,
        SessionSpec {
            user_id: user,
            token: token,
            created_at: now,
            expires_at: (now + SESSION_TTL_SECONDS) as u64,
        },
    )
}

/// Registry contents and answer of a validation at time `now`: an absent
/// token answers nothing; a present but expired token is evicted and
/// answers nothing; a live token answers its record and changes nothing.
pub open spec fn spec_validate(m: Map<Seq<char>, SessionSpec>, token: Seq<char>, now: u64) -> (
    Map<Seq<char>, SessionSpec>,
    Option<SessionSpec>,
) {
    if m.contains_key(token) {
        if m[token].expires_at > now {
            (m, Some(m[token]))
        } else {
            (m.remove(token), None)
        }
    } else {
        (m, None)
    }
}

/// Registry contents and answer of a revocation: the token is removed if
/// present, and the answer says whether it existed.
pub open spec fn spec_revoke(m: Map<Seq<char>, SessionSpec>, token: Seq<char>) -> (
    Map<Seq<char>, SessionSpec>,
    bool,
) {
    (m.remove(token), m.contains_key(token))
}

/// Registry contents after sweeping at time `now`: exactly the entries
/// whose expiry is still in the future, unchanged.
pub open spec fn spec_sweep(m: Map<Seq<char>, SessionSpec>, now: u64) -> Map<
    Seq<char>,
    SessionSpec,
> {
    Map::new(|k: Seq<char>| m.contains_key(k) && m[k].expires_at > now, |k: Seq<char>| m[k])
}

/// Relies on `uuid::Uuid::new_v4` for the random component of a bearer
/// token; nothing is assumed of the returned text.
#[verifier::external_body]
fn make_token(user_id: &str, now: u64) -> (r: String) {
    format!("{}_{}_{}", user_id, uuid::Uuid::new_v4().simple(), now)
}

/// Relies on `chrono::Utc::now` for the current Unix time; nothing is
/// assumed of the returned value.
#[verifier::external_body]
pub fn now_seconds() -> (r: u64) {
    u64::try_from(chrono::Utc::now().timestamp()).unwrap_or(0)
}

/// The registry of live sessions: the sole shared mutable state of the
/// core. Its view is a map from token text to session record. Callers
/// supply the current time, so expiry is decided by comparison alone.
pub struct SessionManager {
    map: StringHashMap<UserSession>,
    tokens: Vec<String>,
}

impl View for SessionManager {
    type V = Map<Seq<char>, SessionSpec>;

    closed spec fn view(&self) -> Map<Seq<char>, SessionSpec> {
        self.map@.map_values(|s: UserSession| s@)
    }
}

impl SessionManager {
    /// Internal well-formedness: every registered record is keyed by its
    /// own token, and the token list covers the registry. Established by
    /// `new` and preserved by every operation.
    pub closed spec fn wf(&self) -> bool {
        forall|k: Seq<char>| #[trigger]
            self.map@.contains_key(k) ==> self.map@[k].token@ == k && exists|i: int|
                0 <= i < self.tokens@.len() && self.tokens@[i]@ == k
    }

    /// An empty registry.
    pub fn new() -> (r: SessionManager)
        ensures
            r.wf(),
            r@ == Map::<Seq<char>, SessionSpec>::empty(),
    {
        let r = SessionManager { map: StringHashMap::new(), tokens: Vec::new() };
        proof {
            assert(r@ =~= Map::<Seq<char>, SessionSpec>::empty());
        }
        r
    }

    /// Issues a session for `user_id` expiring a fixed 24 hours after
    /// `now`, registers it under a fresh token, and returns the token.
    pub fn create_session(&mut self, user_id: &str, now: u64) -> (token: String)
        requires
            old(self).wf(),
            now + SESSION_TTL_SECONDS <= u64::MAX,
        ensures
            final(self).wf(),
            final(self)@ == spec_create(old(self)@, token@, user_id@, now),
            final(self)@.contains_key(token@),
    {
        let token = make_token(user_id, now);
        let session = UserSession {
            user_id: user_id.to_owned(),
            token: token.clone(),
            created_at: now,
            expires_at: now + SESSION_TTL_SECONDS,
        };
        let ghost pre_tokens = self.tokens@;
        self.tokens.push(token.clone());
        proof {
            assert forall|k: Seq<char>| #[trigger] self.map@.contains_key(k) implies exists|i: int|
                0 <= i < self.tokens@.len() && self.tokens@[i]@ == k by {
                let i = choose|i: int| 0 <= i < pre_tokens.len() && pre_tokens[i]@ == k;
                assert(self.tokens@[i]@ == k);
            }
        }
        self.map.insert(token.clone(), session);
        proof {
            assert(self.map@[token@].token@ == token@);
            assert(self.tokens@[self.tokens@.len() - 1]@ == token@);
            assert(final(self)@ =~= spec_create(old(self)@, token@, user_id@, now));
        }
        token
    }

    /// Looks a token up at time `now`. An expired entry is removed on
    /// the spot — this is the sole place expiry is enforced, and it runs
    /// on every call. A live entry is answered with a copy.
    pub fn validate_token(&mut self, token: &str, now: u64) -> (r: Option<UserSession>)
        requires
            old(self).wf(),
        ensures
            final(self).wf(),
            final(self)@ == spec_validate(old(self)@, token@, now).0,
            match r {
                Some(s) => spec_validate(old(self)@, token@, now).1 == Some(s@),
                None => spec_validate(old(self)@, token@, now).1 is None,
            },
    {
        let found: Option<UserSession> = match self.map.get(token) {
            Some(s) => Some(s.clone()),
            None => None,
        };
        match found {
            None => {
                proof {
                    assert(final(self)@ =~= spec_validate(old(self)@, token@, now).0);
                    assert forall|k: Seq<char>| #[trigger] self.map@.contains_key(k) implies self.map@[k].token@
                        == k && exists|i: int| 0 <= i < self.tokens@.len() && self.tokens@[i]@ == k by {
                        assert(old(self).map@.contains_key(k));
                    }
                }
                None
            },
            Some(s) => {
                if s.expires_at > now {
                    proof {
                        assert(final(self)@ =~= spec_validate(old(self)@, token@, now).0);
                        assert forall|k: Seq<char>| #[trigger] self.map@.contains_key(k) implies self.map@[k].token@
                            == k && exists|i: int| 0 <= i < self.tokens@.len() && self.tokens@[i]@ == k by {
                            assert(old(self).map@.contains_key(k));
                            let i = choose|i: int|
                                0 <= i < old(self).tokens@.len() && old(self).tokens@[i]@ == k;
                            assert(self.tokens@[i]@ == k);
                        }
                    }
                    Some(s)
                } else {
                    self.map.remove(token);
                    proof {
                        assert(final(self)@ =~= spec_validate(old(self)@, token@, now).0);
                        assert forall|k: Seq<char>| #[trigger] self.map@.contains_key(k) implies self.map@[k].token@
                            == k && exists|i: int| 0 <= i < self.tokens@.len() && self.tokens@[i]@ == k by {
                            assert(old(self).map@.contains_key(k));
                            let i = choose|i: int|
                                0 <= i < old(self).tokens@.len() && old(self).tokens@[i]@ == k;
                            assert(self.tokens@[i]@ == k);
                        }
                    }
                    None
                }
            },
        }
    }

    /// Removes the token if present and says whether it existed.
    pub fn logout(&mut self, token: &str) -> (r: bool)
        requires
            old(self).wf(),
        ensures
            final(self).wf(),
            final(self)@ == spec_revoke(old(self)@, token@).0,
            r == spec_revoke(old(self)@, token@).1,
    {
        let existed = self.map.contains_key(token);
        self.map.remove(token);
        proof {
            assert(final(self)@ =~= spec_revoke(old(self)@, token@).0);
            assert forall|k: Seq<char>| #[trigger] self.map@.contains_key(k) implies self.map@[k].token@
                == k && exists|i: int| 0 <= i < self.tokens@.len() && self.tokens@[i]@ == k by {
                assert(old(self).map@.contains_key(k));
                let i = choose|i: int|
                    0 <= i < old(self).tokens@.len() && old(self).tokens@[i]@ == k;
                assert(self.tokens@[i]@ == k);
            }
        }
        existed
    }

    /// Removes every entry whose expiry is not in the future. Optional
    /// maintenance: validation already self-heals, this only bounds
    /// registry growth under abandoned sessions.
    pub fn cleanup_expired(&mut self, now: u64)
        requires
            old(self).wf(),
        ensures
            final(self).wf(),
            final(self)@ == spec_sweep(old(self)@, now),
    {
        let ghost m0 = self.map@;
        let mut kept: Vec<String> = Vec::new();
        let n = self.tokens.len();
        let mut i: usize = 0;
        while i < n
            invariant
                i <= n,
                n == self.tokens@.len(),
                self.tokens@.len() == old(self).tokens@.len(),
                forall|j: int| 0 <= j < n ==> self.tokens@[j]@ == old(self).tokens@[j]@,
                forall|k: Seq<char>| #[trigger]
                    self.map@.contains_key(k) ==> m0.contains_key(k) && self.map@[k] == m0[k],
                forall|k: Seq<char>| #[trigger]
                    m0.contains_key(k) && m0[k]@.expires_at > now ==> self.map@.contains_key(k),
                forall|k: Seq<char>| #[trigger]
                    self.map@.contains_key(k) && self.map@[k]@.expires_at <= now ==> exists|j: int|
                        i <= j < n && self.tokens@[j]@ == k,
                forall|k: Seq<char>| #[trigger]
                    self.map@.contains_key(k) ==> (exists|j: int| i <= j < n && self.tokens@[j]@ == k)
                        || (exists|j: int| 0 <= j < kept@.len() && kept@[j]@ == k),
                forall|k: Seq<char>| #[trigger]
                    self.map@.contains_key(k) ==> self.map@[k].token@ == k,
            decreases n - i,
        {
            let t = self.tokens[i].clone();
            let (present, live) = match self.map.get(t.as_str()) {
                Some(s) => (true, s.expires_at > now),
                None => (false, false),
            };
            let ghost pre = self.map@;
            let ghost kept_pre = kept@;
            if present {
                if live {
                    kept.push(t);
                } else {
                    self.map.remove(t.as_str());
                }
            }
            proof {
                assert forall|k: Seq<char>| #[trigger]
                    self.map@.contains_key(k) && self.map@[k]@.expires_at <= now implies exists|
                    j: int,
                |
                    i + 1 <= j < n && self.tokens@[j]@ == k by {
                    let j = choose|j: int| i <= j < n && self.tokens@[j]@ == k;
                    if j == i {
                        assert(k == t@);
                        assert(false);
                    }
                    assert(i + 1 <= j < n && self.tokens@[j]@ == k);
                }
                assert forall|k: Seq<char>| #[trigger] self.map@.contains_key(k) implies (exists|
                    j: int,
                |
                    i + 1 <= j < n && self.tokens@[j]@ == k) || (exists|j: int|
                    0 <= j < kept@.len() && kept@[j]@ == k) by {
                    if exists|j: int| 0 <= j < kept_pre.len() && kept_pre[j]@ == k {
                        let j = choose|j: int| 0 <= j < kept_pre.len() && kept_pre[j]@ == k;
                        assert(kept@[j]@ == k);
                    } else {
                        let j = choose|j: int| i <= j < n && self.tokens@[j]@ == k;
                        if j == i {
                            assert(k == t@);
                            assert(kept@[kept@.len() - 1]@ == k);
                        } else {
                            assert(i + 1 <= j < n && self.tokens@[j]@ == k);
                        }
                    }
                }
            }
            i = i + 1;
        }
        self.tokens = kept;
        proof {
            assert(final(self)@ =~= spec_sweep(old(self)@, now));
            assert forall|k: Seq<char>| #[trigger] self.map@.contains_key(k) implies self.map@[k].token@
                == k && exists|i: int| 0 <= i < self.tokens@.len() && self.tokens@[i]@ == k by {
                let j = choose|j: int| 0 <= j < kept@.len() && kept@[j]@ == k;
                assert(self.tokens@[j]@ == k);
            }
        }
    }
}

/// Law: a freshly created session validates, at any instant before its
/// expiry, to a record for exactly its subject, and the check leaves the
/// registry unchanged.
pub proof fn lemma_create_then_validate(
    m: Map<Seq<char>, SessionSpec>,
    token: Seq<char>,
    user: Seq<char>,
    now: u64,
    check: u64,
)
    requires
        now + SESSION_TTL_SECONDS <= u64::MAX,
        now <= check < now + SESSION_TTL_SECONDS,
    ensures
        ({
            let created = spec_create(m, token, user, now);
            let (after, r) = spec_validate(created, token, check);
            after == created && (r matches Some(s) && s.user_id == user && s.token == token
                && s.created_at == now && s.expires_at == now + SESSION_TTL_SECONDS)
        }),
{
}

/// Law: once the clock reaches a session's expiry, validation answers
/// nothing, evicts the entry, and a repeated lookup confirms it is gone.
pub proof fn lemma_validate_after_expiry(
    m: Map<Seq<char>, SessionSpec>,
    token: Seq<char>,
    user: Seq<char>,
    now: u64,
    later: u64,
)
    requires
        now + SESSION_TTL_SECONDS <= u64::MAX,
        later >= now + SESSION_TTL_SECONDS,
    ensures
        ({
            let created = spec_create(m, token, user, now);
            let (after, r) = spec_validate(created, token, later);
            r is None && !after.contains_key(token) && spec_validate(after, token, later).1
                is None && spec_validate(after, token, later).0 == after
        }),
{
}

/// Law: a revoked token never validates again, whatever the time; the
/// answer of the revocation says exactly whether the token existed, and
/// revoking an unknown token answers false and changes nothing.
pub proof fn lemma_revocation(m: Map<Seq<char>, SessionSpec>, token: Seq<char>, now: u64)
    ensures
        ({
            let (after, existed) = spec_revoke(m, token);
            existed == m.contains_key(token) && !after.contains_key(token) && spec_validate(
                after,
                token,
                now,
            ).1 is None && (!existed ==> after == m)
        }),
{
    let (after, existed) = spec_revoke(m, token);
    if !m.contains_key(token) {
        assert(after =~= m);
    }
}

/// Law: sweeping keeps exactly the live entries, unchanged, and never
/// invents one.
pub proof fn lemma_sweep(m: Map<Seq<char>, SessionSpec>, now: u64)
    ensures
        forall|k: Seq<char>| #[trigger]
            spec_sweep(m, now).contains_key(k) <==> m.contains_key(k) && m[k].expires_at > now,
        forall|k: Seq<char>| #[trigger]
            spec_sweep(m, now).contains_key(k) ==> spec_sweep(m, now)[k] == m[k],
{
}

} // verus!
