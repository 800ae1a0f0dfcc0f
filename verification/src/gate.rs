//! The access gate: the request-interception policy every protected
//! route must pass.
//!
//! A request must show its token in the `Authorization` header behind
//! the exact scheme prefix `Bearer `; any other form, or absence, is a
//! rejection with no further processing. A token found there is then
//! checked against the session authority. All session failures collapse into one opaque
//! unauthenticated outcome: a rejection never says whether the token was
//! absent, malformed, unknown or merely expired.

use vstd::prelude::*;

use vstd::string::StrSliceExecFns;

use crate::session::{spec_validate, SessionManager, SessionSpec, UserSession};

verus! {

/// The credential carried by a header value: the text after an exact
/// `Bearer ` prefix, or nothing.
pub open spec fn spec_bearer_token(h: Seq<char>) -> Option<Seq<char>> {
    if h.len() >= 7 && h.subrange(0, 7) == "Bearer "@ {
        Some(h.subrange(7, h.len() as int))
    } else {
        None
    }
}

/// The view of an optional header value.
pub open spec fn view_header(h: Option<&str>) -> Option<Seq<char>> {
    match h {
        Some(s) => Some(s@),
        None => None,
    }
}

/// Registry contents and outcome of one gate pass: no header or a
/// non-Bearer scheme rejects outright; otherwise the token is validated
/// against the registry (which may lazily evict an expired entry).
pub open spec fn spec_gate(
    m: Map<Seq<char>, SessionSpec>,
    header: Option<Seq<char>>,
    now: u64,
) -> (Map<Seq<char>, SessionSpec>, Option<SessionSpec>) {
    match header {
        None => (m, None),
        Some(h) => match spec_bearer_token(h) {
            None => (m, None),
            Some(token) => spec_validate(m, token, now),
        },
    }
}

/// Pulls the bearer token out of an `Authorization` header value:
/// exactly the text after the 7-character `Bearer ` prefix, if the
/// prefix matches exactly.
pub fn extract_bearer(header: &str) -> (r: Option<String>)
    ensures
        match r {
            Some(t) => spec_bearer_token(header@) == Some(t@),
            None => spec_bearer_token(header@) is None,
        },
{
    proof {
        reveal_strlit("Bearer ");
    }
    let scheme: &str = "Bearer ";
    let n = header.unicode_len();
    if n < 7 {
        return None;
    }
    let mut i: usize = 0;
    while i < 7
        invariant
            i <= 7,
            n == header@.len(),
            n >= 7,
            forall|j: int| 0 <= j < i ==> header@[j] == "Bearer "@[j],
            scheme@ == "Bearer "@,
            scheme@.len() == 7,
        decreases 7 - i,
    {
        if header.get_char(i) != scheme.get_char(i) {
            proof {
                assert(header@.subrange(0, 7)[i as int] == header@[i as int]);
                assert(header@.subrange(0, 7) != "Bearer "@);
            }
            return None;
        }
        i = i + 1;
    }
    proof {
        assert(header@.subrange(0, 7) =~= "Bearer "@);
    }
    let token = header.substring_char(7, n).to_owned();
    Some(token)
}

/// One gate pass over a request's `Authorization` header at time `now`:
/// answers the resolved session exactly when the header carries a live
/// bearer token, and rejects with nothing otherwise. No protected logic
/// runs before this answers; the registry changes only by lazy eviction
/// of the presented token.
pub fn authorize_request(
    sessions: &mut SessionManager,
    auth_header: Option<&str>,
    now: u64,
) -> (r: Option<UserSession>)
    requires
        old(sessions).wf(),
    ensures
        final(sessions).wf(),
        final(sessions)@ == spec_gate(old(sessions)@, view_header(auth_header), now).0,
        match r {
            Some(s) => spec_gate(old(sessions)@, view_header(auth_header), now).1 == Some(s@),
            None => spec_gate(old(sessions)@, view_header(auth_header), now).1 is None,
        },
{
    let header = match auth_header {
        Some(h) => h,
        None => {
            return None;
        },
    };
    let token = match extract_bearer(header) {
        Some(t) => t,
        None => {
            return None;
        },
    };
    sessions.validate_token(token.as_str(), now)
}

/// Law: gate rejection and forwarding. A request with no header or a
/// non-Bearer scheme is rejected with the registry untouched; one with
/// an unknown token is rejected with the registry untouched; one with an
/// expired token is rejected and the entry evicted; one with a live
/// token is forwarded with exactly the registered session, and the
/// registry is unchanged.
pub proof fn lemma_gate_rejection(
    m: Map<Seq<char>, SessionSpec>,
    header: Option<Seq<char>>,
    now: u64,
)
    ensures
        header is None ==> spec_gate(m, header, now).1 is None && spec_gate(m, header, now).0
            == m,
        forall|h: Seq<char>|
            header == Some(h) && spec_bearer_token(h) is None ==> spec_gate(m, header, now).1
                is None && spec_gate(m, header, now).0 == m,
        forall|h: Seq<char>, tok: Seq<char>|
            #![trigger spec_bearer_token(h), m.contains_key(tok)]
            header == Some(h) && spec_bearer_token(h) == Some(tok) && !m.contains_key(tok)
                ==> spec_gate(m, header, now).1 is None && spec_gate(m, header, now).0 == m,
        forall|h: Seq<char>, tok: Seq<char>|
            #![trigger spec_bearer_token(h), m.contains_key(tok)]
            header == Some(h) && spec_bearer_token(h) == Some(tok) && m.contains_key(tok)
                && m[tok].expires_at <= now ==> spec_gate(m, header, now).1 is None && !spec_gate(
                m,
                header,
                now,
            ).0.contains_key(tok) && spec_gate(m, header, now).0 == m.remove(tok),
        forall|h: Seq<char>, tok: Seq<char>|
            #![trigger spec_bearer_token(h), m.contains_key(tok)]
            header == Some(h) && spec_bearer_token(h) == Some(tok) && m.contains_key(tok)
                && m[tok].expires_at > now ==> spec_gate(m, header, now).1 == Some(m[tok])
                && spec_gate(m, header, now).0 == m,
{
}

} // verus!
