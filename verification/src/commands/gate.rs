//! Reading the session token of a request and resolving it to a signed-in user.
use vstd::prelude::*;
use crate::comm::{Response, ResponseView, clone_opt, ostr};
use crate::json::{Json, JsonValue, jget, jstr, str_field};
use crate::oid::Oid;
use crate::session::{SessionStore, SessionView};

verus! {

/// The token a request names: its `session_token` member when present (as a
/// string), else its `token` member.
pub open spec fn token_member(data: Json) -> Option<Seq<char>> {
    match jget(data, "session_token"@) {
        Some(v) => jstr(Some(v)),
        None => str_field(data, "token"@),
    }
}

/// `data.get("session_token").or_else(|| data.get("token")).and_then(as_str)`.
pub fn token_of(data: &JsonValue) -> (r: Option<&str>)
    ensures
        match r {
            Some(t) => token_member(data@) == Some(t@),
            None => token_member(data@) is None,
        },
{
    match data.get("session_token") {
        Some(v) => v.as_str(),
        None => match data.get("token") {
            Some(v) => v.as_str(),
            None => None,
        },
    }
}

/// The token the dispatcher hands to handlers: the named token, or empty.
pub open spec fn request_token(data: Json) -> Seq<char> {
    match token_member(data) {
        Some(t) => t,
        None => Seq::empty(),
    }
}

/// The token the dispatcher hands to handlers.
pub fn request_token_of(data: &JsonValue) -> (r: String)
    ensures
        r@ == request_token(data@),
{
    match token_of(data) {
        Some(t) => t.to_owned(),
        None => String::new(),
    }
}

/// A signed-in user: their id and e-mail address.
pub struct SignedIn {
    pub user_id: Oid,
    pub email: Option<String>,
}

/// Resolving a token in the store: the session must exist and carry a user
/// id; with `require_auth` it must also be authenticated.
pub open spec fn session_gate(cmd: Seq<char>, store: Map<Seq<char>, SessionView>, token: Seq<char>, require_auth: bool) -> Result<SessionView, ResponseView> {
    if !store.contains_key(token) {
        Err(ResponseView::err(cmd, "Invalid or expired session"@))
    } else if store[token].user_id is None {
        Err(ResponseView::err(cmd, "User not authenticated"@))
    } else if require_auth && !store[token].authenticated {
        Err(ResponseView::err(cmd, "User not authenticated"@))
    } else {
        Ok(store[token])
    }
}

/// A session token must be given, and it must name an authenticated session with a user.
pub open spec fn token_gate(cmd: Seq<char>, store: Map<Seq<char>, SessionView>, token: Seq<char>) -> Result<SessionView, ResponseView> {
    if token.len() == 0 {
        Err(ResponseView::err(cmd, "Missing session token"@))
    } else {
        session_gate(cmd, store, token, true)
    }
}

/// A session token must be given, and it must name a session with a user
/// (one message for both failures) that is authenticated.
pub open spec fn lenient_gate(cmd: Seq<char>, store: Map<Seq<char>, SessionView>, token: Seq<char>) -> Result<SessionView, ResponseView> {
    if token.len() == 0 {
        Err(ResponseView::err(cmd, "Missing session token"@))
    } else if !store.contains_key(token) || store[token].user_id is None {
        Err(ResponseView::err(cmd, "Invalid session or not authenticated"@))
    } else if !store[token].authenticated {
        Err(ResponseView::err(cmd, "User not authenticated"@))
    } else {
        Ok(store[token])
    }
}

/// Whether an exec outcome of a gate matches its model.
pub open spec fn gate_matches(r: Result<SignedIn, Response>, m: Result<SessionView, ResponseView>) -> bool {
    match (r, m) {
        (Ok(u), Ok(s)) => s.user_id == Some(u.user_id.bytes@) && ostr(u.email) == s.email,
        (Err(e), Err(v)) => e@ == v,
        _ => false,
    }
}

/// Resolves `token` as [`session_gate`] says.
pub fn resolve_session(cmd: &str, sessions: &SessionStore, token: &str, require_auth: bool) -> (r: Result<SignedIn, Response>)
    ensures
        gate_matches(r, session_gate(cmd@, sessions@, token@, require_auth)),
{
    match sessions.get(token) {
        None => Err(Response::err(cmd, "Invalid or expired session")),
        Some(s) => match s.user_id {
            None => Err(Response::err(cmd, "User not authenticated")),
            Some(id) => {
                if require_auth && !s.authenticated {
                    Err(Response::err(cmd, "User not authenticated"))
                } else {
                    Ok(SignedIn { user_id: id, email: clone_opt(&s.email) })
                }
            },
        },
    }
}

/// Resolves `token` as [`token_gate`] says.
pub fn require_session(cmd: &str, sessions: &SessionStore, token: &str) -> (r: Result<SignedIn, Response>)
    ensures
        gate_matches(r, token_gate(cmd@, sessions@, token@)),
{
    if token.is_empty() {
        return Err(Response::err(cmd, "Missing session token"));
    }
    resolve_session(cmd, sessions, token, true)
}

/// Resolves `token` as [`lenient_gate`] says.
pub fn require_user(cmd: &str, sessions: &SessionStore, token: &str) -> (r: Result<SignedIn, Response>)
    ensures
        gate_matches(r, lenient_gate(cmd@, sessions@, token@)),
{
    if token.is_empty() {
        return Err(Response::err(cmd, "Missing session token"));
    }
    match sessions.get(token) {
        Some(s) => match s.user_id {
            Some(id) => {
                if !s.authenticated {
                    return Err(Response::err(cmd, "User not authenticated"));
                }
                Ok(SignedIn { user_id: id, email: clone_opt(&s.email) })
            },
            None => Err(Response::err(cmd, "Invalid session or not authenticated")),
        },
        None => Err(Response::err(cmd, "Invalid session or not authenticated")),
    }
}

} // verus!

verus! {

/// A request without a session token is refused as such by every command
/// that needs a session, whatever the store holds.
pub proof fn law_no_token_no_session(cmd: Seq<char>, store: Map<Seq<char>, SessionView>)
    ensures
        token_gate(cmd, store, Seq::empty()) == Err::<SessionView, ResponseView>(ResponseView::err(cmd, "Missing session token"@)),
        lenient_gate(cmd, store, Seq::empty()) == Err::<SessionView, ResponseView>(ResponseView::err(cmd, "Missing session token"@)),
{
}

/// An authenticated session with a user passes both checks, and the
/// session itself is what they give.
pub proof fn law_signed_in_sessions_pass(cmd: Seq<char>, store: Map<Seq<char>, SessionView>, token: Seq<char>)
    requires
        token.len() > 0,
        store.contains_key(token),
        store[token].user_id is Some,
        store[token].authenticated,
    ensures
        token_gate(cmd, store, token) == Ok::<SessionView, ResponseView>(store[token]),
        lenient_gate(cmd, store, token) == Ok::<SessionView, ResponseView>(store[token]),
{
}

} // verus!
