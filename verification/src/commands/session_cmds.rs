//! Session commands: INIT, AUTH, RESUME, LOGOUT, SESSION_INFO, SESSION_LIST,
//! SESSION_KILL, SESSION_SUSPEND and SESSION_RESUME_SUSPENDED.
use vstd::prelude::*;
use crate::comm::{ostr, clone_opt, Request, Response, ResponseView};
use crate::commands::gate::{token_member, token_of};
use crate::json::{Json, get_str, str_field};
use crate::oid::Oid;
use crate::records::{UserDoc, new_user};
use crate::session::{SessionStore, SessionView, WmtpSession, ephemeral_view, summary_of};
use crate::text::{contains_char, to_lower, trim, unicode_lower, unicode_trim};
use crate::token::{all_alnum, email_token, generate_ephemeral_token, jwt_claims, token_from_email, unix_now, verify_jwt_at};

verus! {

/// `INIT`: opens a fresh unauthenticated session under a new random token.
pub fn handle_init(_req: &Request, sessions: &mut SessionStore) -> (r: Response)
    ensures
        r@.session_token matches Some(t) && t.len() == 32 && all_alnum(t) && final(sessions)@ == old(sessions)@.insert(t, ephemeral_view(t))
            && r@ == ResponseView::ok("SESSION_INIT"@).with_token(t).with_auth(false).with_msg("Session initialized"@),
{
    let token = generate_ephemeral_token();
    sessions.insert(WmtpSession::new_ephemeral(token.clone()));
    Response::ok("SESSION_INIT")
        .with_token(token)
        .with_auth(false)
        .with_msg("Session initialized")
}

/// The address an `AUTH` request names, trimmed and lower-cased, when it is
/// not blank.
pub open spec fn auth_email(data: Json) -> Option<Seq<char>> {
    match str_field(data, "email"@) {
        Some(e) => if unicode_trim(e).len() > 0 { Some(unicode_lower(unicode_trim(e))) } else { None },
        None => None,
    }
}

/// A checked `AUTH` request: the address and the session token it maps to.
pub struct AuthRequest {
    pub email: String,
    pub token: String,
}

/// What an `AUTH` request asks for, before any user is looked up.
pub open spec fn auth_outcome(data: Json) -> Result<(Seq<char>, Seq<char>), ResponseView> {
    match auth_email(data) {
        None => Err(ResponseView::err("AUTH"@, "Missing or empty email"@)),
        Some(e) => if !e.contains('@') || !e.contains('.') {
            Err(ResponseView::err("AUTH"@, "Invalid email format"@))
        } else {
            Ok((e, email_token(e)))
        },
    }
}

/// `AUTH`, first step: checks the address and derives the session token.
pub fn auth_request(req: &Request) -> (r: Result<AuthRequest, Response>)
    ensures
        match (r, auth_outcome(req.data@)) {
            (Ok(a), Ok((e, t))) => a.email@ == e && a.token@ == t && t.len() == 64,
            (Err(x), Err(v)) => x@ == v,
            _ => false,
        },
{
    let email = match get_str(&req.data, "email") {
        Some(e) => {
            let t = trim(e);
            if t.is_empty() {
                return Err(Response::err("AUTH", "Missing or empty email"));
            }
            to_lower(t)
        },
        None => return Err(Response::err("AUTH", "Missing or empty email")),
    };
    if !contains_char(email.as_str(), '@') || !contains_char(email.as_str(), '.') {
        return Err(Response::err("AUTH", "Invalid email format"));
    }
    let token = token_from_email(email.as_str());
    Ok(AuthRequest { email, token })
}

/// The session a successful `AUTH` leaves under `token`.
pub open spec fn authed_session(old: Map<Seq<char>, SessionView>, token: Seq<char>, email: Seq<char>, user: Seq<u8>) -> SessionView {
    if old.contains_key(token) {
        SessionView { token, email: Some(email), authenticated: true, user_id: Some(user), ..old[token] }
    } else {
        SessionView { token, email: Some(email), authenticated: true, suspended: false, user_id: Some(user) }
    }
}

/// `AUTH`, last step, once the user is known: signs the session in.
pub fn auth_complete(sessions: &mut SessionStore, token: String, email: String, user_id: Oid) -> (r: Response)
    ensures
        final(sessions)@ == old(sessions)@.insert(token@, authed_session(old(sessions)@, token@, email@, user_id.bytes@)),
        r@ == ResponseView::ok("AUTH_OK"@).with_token(token@).with_auth(true).with_msg("Authentication successful"@),
{
    let updated = match sessions.get(token.as_str()) {
        Some(s) => WmtpSession {
            token: s.token.clone(),
            email: Some(email),
            authenticated: true,
            suspended: s.suspended,
            user_id: Some(user_id),
        },
        None => WmtpSession {
            token: token.clone(),
            email: Some(email),
            authenticated: true,
            suspended: false,
            user_id: Some(user_id),
        },
    };
    sessions.insert(updated);
    Response::ok("AUTH_OK")
        .with_token(token)
        .with_auth(true)
        .with_msg("Authentication successful")
}

/// `AUTH`, middle step: the user the address belongs to. A user the store
/// found is kept and nothing is stored; otherwise a new user with the given
/// id is made, to be stored.
pub fn auth_user(found: Option<UserDoc>, new_id: Oid, email: &str, now: i64) -> (r: (Oid, Option<UserDoc>))
    ensures
        match found {
            Some(u) => r.0 == u.id && r.1 is None,
            None => r.0 == new_id && (r.1 matches Some(n) && n.id == new_id && n.email@ == email@ && n.created_at == now
                && n.name is None && n.avatar_url is None && n.timezone is None && n.signature is None),
        },
{
    match found {
        Some(u) => (u.id, None),
        None => (new_id, Some(new_user(new_id, email, now))),
    }
}

/// The `AUTH` answer when the store fails while finding or creating the user.
pub fn auth_database_error() -> (r: Response)
    ensures
        r@ == ResponseView::err("AUTH"@, "Database error"@),
{
    Response::err("AUTH", "Database error")
}

/// The token a `RESUME`, `LOGOUT` or `SESSION_KILL` request carries, trimmed,
/// when it is not blank.
pub open spec fn trimmed_token(t: Option<Seq<char>>) -> Option<Seq<char>> {
    match t {
        Some(x) => if unicode_trim(x).len() > 0 { Some(unicode_trim(x)) } else { None },
        None => None,
    }
}

/// `t` trimmed, when it is not blank.
fn non_blank(t: Option<&str>) -> (r: Option<String>)
    ensures
        ostr(r) == trimmed_token(match t { Some(x) => Some(x@), None => None }),
{
    match t {
        Some(x) => {
            let y = trim(x);
            if y.is_empty() { None } else { Some(y.to_owned()) }
        },
        None => None,
    }
}

/// What `RESUME` answers at time `now`: the session named by the token (or
/// by the session token inside it, when it is a valid signed token); the
/// token as sent, trimmed, is echoed back.
pub open spec fn resume_outcome(data: Json, store: Map<Seq<char>, SessionView>, secret: Seq<char>, now: u64) -> ResponseView {
    match trimmed_token(str_field(data, "token"@)) {
        None => ResponseView::err("RESUME"@, "Missing or empty token"@),
        Some(raw) => {
            let tok = match jwt_claims(raw, secret, now) {
                Some((_, t)) => t,
                None => raw,
            };
            if !store.contains_key(tok) {
                ResponseView::err("RESUME"@, "Session not found or expired"@)
            } else {
                let s = store[tok];
                ResponseView::ok("SESSION_RESUMED"@)
                    .with_token(raw)
                    .with_auth(s.authenticated)
                    .with_email(s.email)
                    .with_msg("Session resumed"@)
            }
        },
    }
}

/// `RESUME` at time `now`, with signing secret `secret`.
pub fn handle_resume_at(req: &Request, sessions: &SessionStore, secret: &str, now: u64) -> (r: Response)
    ensures
        r@ == resume_outcome(req.data@, sessions@, secret@, now),
{
    let raw = match non_blank(get_str(&req.data, "token")) {
        Some(t) => t,
        None => return Response::err("RESUME", "Missing or empty token"),
    };
    let session_token = match verify_jwt_at(raw.as_str(), secret, now) {
        Some(claims) => claims.session_token,
        None => raw.clone(),
    };
    let sess = match sessions.get(session_token.as_str()) {
        Some(s) => s,
        None => return Response::err("RESUME", "Session not found or expired"),
    };
    Response::ok("SESSION_RESUMED")
        .with_token(raw)
        .with_auth(sess.authenticated)
        .with_email(clone_opt(&sess.email))
        .with_msg("Session resumed")
}

/// `RESUME` at the current time.
pub fn handle_resume(req: &Request, sessions: &SessionStore, secret: &str) -> (r: Response)
    ensures
        exists|now: u64| r@ == resume_outcome(req.data@, sessions@, secret@, now),
{
    let now = unix_now();
    handle_resume_at(req, sessions, secret, now)
}

/// `LOGOUT`: forgets the session named by the request's token.
pub fn handle_logout(req: &Request, sessions: &mut SessionStore) -> (r: Response)
    ensures
        match trimmed_token(token_member(req.data@)) {
            None => final(sessions)@ == old(sessions)@
                && r@ == ResponseView::err("LOGOUT"@, "Missing or empty token"@),
            Some(t) => final(sessions)@ == old(sessions)@.remove(t)
                && r@ == ResponseView::ok("LOGOUT_OK"@).with_msg("Logged out"@),
        },
{
    let token = match non_blank(token_of(&req.data)) {
        Some(t) => t,
        None => return Response::err("LOGOUT", "Missing or empty token"),
    };
    sessions.remove(token.as_str());
    Response::ok("LOGOUT_OK").with_msg("Logged out")
}

/// What `SESSION_INFO` answers for `token`.
pub open spec fn session_info_view(store: Map<Seq<char>, SessionView>, token: Seq<char>) -> ResponseView {
    if token.len() == 0 {
        ResponseView::err("SESSION_INFO"@, "Missing token"@)
    } else if !store.contains_key(token) {
        ResponseView::err("SESSION_INFO"@, "Session not found"@)
    } else {
        ResponseView::ok("SESSION_INFO"@)
            .with_token(store[token].token)
            .with_auth(store[token].authenticated)
            .with_email(store[token].email)
            .with_msg("Session info"@)
    }
}

/// `SESSION_INFO`: what the store holds for `token`.
pub fn handle_session_info(token: &str, sessions: &SessionStore, _req: &Request) -> (r: Response)
    ensures
        r@ == session_info_view(sessions@, token@),
{
    if token.is_empty() {
        return Response::err("SESSION_INFO", "Missing token");
    }
    let sess = match sessions.get(token) {
        Some(s) => s,
        None => return Response::err("SESSION_INFO", "Session not found"),
    };
    Response::ok("SESSION_INFO")
        .with_token(sess.token.clone())
        .with_auth(sess.authenticated)
        .with_email(clone_opt(&sess.email))
        .with_msg("Session info")
}

/// `SESSION_LIST`: every session, each once.
pub fn handle_session_list(_req: &Request, sessions: &SessionStore) -> (r: Response)
    ensures
        r@.sessions matches Some(list) && r@ == ResponseView::ok("SESSION_LIST"@).with_msg("Active sessions"@).with_sessions(list)
            && list.len() == sessions@.len()
            && (forall|i: int| 0 <= i < list.len() ==> sessions@.contains_key((#[trigger] list[i]).session_token)
                && list[i] == summary_of(sessions@[list[i].session_token]))
            && (forall|k: Seq<char>| #[trigger] sessions@.contains_key(k) ==> exists|i: int| 0 <= i < list.len() && (#[trigger] list[i]).session_token == k)
            && (forall|i: int, j: int| 0 <= i < list.len() && 0 <= j < list.len() && i != j ==> (#[trigger] list[i]).session_token != (#[trigger] list[j]).session_token),
{
    let list = sessions.summaries();
    let r = Response::ok("SESSION_LIST").with_msg("Active sessions").with_sessions(list);
    proof {
        let l = r@.sessions->0;
        assert(l == list@.map_values(|s: crate::comm::SessionSummary| s@));
        assert forall|k: Seq<char>| #[trigger] sessions@.contains_key(k) implies exists|i: int| 0 <= i < l.len() && (#[trigger] l[i]).session_token == k by {
            let i = choose|i: int| 0 <= i < list@.len() && (#[trigger] list@[i])@.session_token == k;
            assert(l[i] == list@[i]@);
        }
        assert forall|i: int, j: int| 0 <= i < l.len() && 0 <= j < l.len() && i != j implies (#[trigger] l[i]).session_token != (#[trigger] l[j]).session_token by {
            assert(l[i] == list@[i]@ && l[j] == list@[j]@);
        }
    }
    r
}

/// `SESSION_KILL`: removes the session named by the request's token.
pub fn handle_session_kill(req: &Request, sessions: &mut SessionStore) -> (r: Response)
    ensures
        final(sessions)@ == match trimmed_token(token_member(req.data@)) {
            Some(t) => old(sessions)@.remove(t),
            None => old(sessions)@,
        },
        r@ == match trimmed_token(token_member(req.data@)) {
            None => ResponseView::err("SESSION_KILL"@, "Missing or empty token"@),
            Some(t) => if !old(sessions)@.contains_key(t) {
                ResponseView::err("SESSION_KILL"@, "Session not found"@)
            } else {
                ResponseView::ok("SESSION_KILL"@).with_token(t).with_auth(false).with_msg("Session killed"@)
            },
        },
{
    let token = match non_blank(token_of(&req.data)) {
        Some(t) => t,
        None => return Response::err("SESSION_KILL", "Missing or empty token"),
    };
    let removed = sessions.remove(token.as_str());
    if removed.is_none() {
        return Response::err("SESSION_KILL", "Session not found");
    }
    Response::ok("SESSION_KILL")
        .with_token(token)
        .with_auth(false)
        .with_msg("Session killed")
}

/// The store after `SESSION_SUSPEND` of `t`.
pub open spec fn suspended(store: Map<Seq<char>, SessionView>, t: Seq<char>) -> Map<Seq<char>, SessionView> {
    if store.contains_key(t) {
        store.insert(t, SessionView { suspended: true, authenticated: false, ..store[t] })
    } else {
        store
    }
}

/// The store after `SESSION_RESUME_SUSPENDED` of `t`.
pub open spec fn unsuspended(store: Map<Seq<char>, SessionView>, t: Seq<char>) -> Map<Seq<char>, SessionView> {
    if store.contains_key(t) && store[t].suspended {
        store.insert(t, SessionView { suspended: false, authenticated: true, ..store[t] })
    } else {
        store
    }
}

/// Copies `s` with new flags.
fn with_flags(s: &WmtpSession, authenticated: bool, is_suspended: bool) -> (r: WmtpSession)
    ensures
        r@ == (SessionView { authenticated, suspended: is_suspended, ..s@ }),
{
    WmtpSession {
        token: s.token.clone(),
        email: clone_opt(&s.email),
        authenticated,
        suspended: is_suspended,
        user_id: s.user_id,
    }
}

/// `SESSION_SUSPEND`: marks the session suspended and no longer authenticated.
pub fn handle_session_suspend(token: &str, sessions: &mut SessionStore, _req: &Request) -> (r: Response)
    ensures
        final(sessions)@ == if token@.len() == 0 { old(sessions)@ } else { suspended(old(sessions)@, token@) },
        r@ == if token@.len() == 0 {
            ResponseView::err("SESSION_SUSPEND"@, "Missing token"@)
        } else if !old(sessions)@.contains_key(token@) {
            ResponseView::err("SESSION_SUSPEND"@, "Session not found"@)
        } else {
            ResponseView::ok("SESSION_SUSPEND"@).with_token(token@).with_auth(false).with_msg("Session suspended"@)
        },
{
    if token.is_empty() {
        return Response::err("SESSION_SUSPEND", "Missing token");
    }
    let updated = match sessions.get(token) {
        Some(s) => with_flags(s, false, true),
        None => return Response::err("SESSION_SUSPEND", "Session not found"),
    };
    sessions.insert(updated);
    Response::ok("SESSION_SUSPEND")
        .with_token(token.to_owned())
        .with_auth(false)
        .with_msg("Session suspended")
}

/// `SESSION_RESUME_SUSPENDED`: lifts a suspension and authenticates the session again.
pub fn handle_session_resume_suspended(token: &str, sessions: &mut SessionStore, _req: &Request) -> (r: Response)
    ensures
        final(sessions)@ == if token@.len() == 0 { old(sessions)@ } else { unsuspended(old(sessions)@, token@) },
        r@ == if token@.len() == 0 {
            ResponseView::err("SESSION_RESUME_SUSPENDED"@, "Missing token"@)
        } else if !old(sessions)@.contains_key(token@) {
            ResponseView::err("SESSION_RESUME_SUSPENDED"@, "Session not found"@)
        } else if !old(sessions)@[token@].suspended {
            ResponseView::err("SESSION_RESUME_SUSPENDED"@, "Session is not suspended"@)
        } else {
            ResponseView::ok("SESSION_RESUME_SUSPENDED"@).with_token(token@).with_auth(true)
                .with_msg("Session resumed from suspended state"@)
        },
{
    if token.is_empty() {
        return Response::err("SESSION_RESUME_SUSPENDED", "Missing token");
    }
    let updated = match sessions.get(token) {
        Some(s) => {
            if !s.suspended {
                return Response::err("SESSION_RESUME_SUSPENDED", "Session is not suspended");
            }
            with_flags(s, true, false)
        },
        None => return Response::err("SESSION_RESUME_SUSPENDED", "Session not found"),
    };
    sessions.insert(updated);
    Response::ok("SESSION_RESUME_SUSPENDED")
        .with_token(token.to_owned())
        .with_auth(true)
        .with_msg("Session resumed from suspended state")
}

/// Suspending an authenticated, unsuspended session and resuming it leaves
/// the store as it was.
pub proof fn law_suspend_then_resume(store: Map<Seq<char>, SessionView>, t: Seq<char>)
    requires
        store.contains_key(t),
        store[t].authenticated,
        !store[t].suspended,
    ensures
        unsuspended(suspended(store, t), t) == store,
{
    assert(unsuspended(suspended(store, t), t) =~= store);
}

/// Resuming a session that is not suspended changes nothing.
pub proof fn law_resume_needs_suspension(store: Map<Seq<char>, SessionView>, t: Seq<char>)
    requires
        !(store.contains_key(t) && store[t].suspended),
    ensures
        unsuspended(store, t) == store,
{
}

/// After a suspension the session is suspended and not authenticated; after
/// resuming it, it is authenticated and not suspended; every other session is
/// untouched by either.
pub proof fn law_suspension_flags(store: Map<Seq<char>, SessionView>, t: Seq<char>, other: Seq<char>)
    requires
        store.contains_key(t),
        other != t,
    ensures
        suspended(store, t)[t].suspended && !suspended(store, t)[t].authenticated,
        unsuspended(suspended(store, t), t)[t].authenticated && !unsuspended(suspended(store, t), t)[t].suspended,
        suspended(store, t).contains_key(other) == store.contains_key(other),
        store.contains_key(other) ==> suspended(store, t)[other] == store[other]
            && unsuspended(store, t)[other] == store[other],
{
}

/// Two `AUTH` requests for the same address sign in to the same session token.
pub proof fn law_auth_token_is_stable(d1: Json, d2: Json)
    requires
        auth_outcome(d1) is Ok,
        auth_outcome(d2) is Ok,
        auth_email(d1) == auth_email(d2),
    ensures
        auth_outcome(d1)->Ok_0.1 == auth_outcome(d2)->Ok_0.1,
{
}

/// A session signed in by `AUTH` is authenticated as its address and user,
/// whatever state it was in.
pub proof fn law_auth_signs_in(old: Map<Seq<char>, SessionView>, token: Seq<char>, email: Seq<char>, user: Seq<u8>)
    ensures
        ({
            let s = old.insert(token, authed_session(old, token, email, user))[token];
            s.authenticated && s.email == Some(email) && s.user_id == Some(user) && s.token == token
        }),
{
}

} // verus!

verus! {

/// A session signed in by `AUTH` reports, to `SESSION_INFO`, the token it was
/// signed in under, that it is authenticated, and the address as the request
/// gave it, trimmed and lower-cased. Every token `AUTH` issues is 64 hex digits.
pub proof fn law_auth_then_session_info(data: Json, old: Map<Seq<char>, SessionView>, user: Seq<u8>)
    requires
        auth_outcome(data) is Ok,
        auth_outcome(data)->Ok_0.1.len() > 0,
    ensures
        ({
            let (e, t) = auth_outcome(data)->Ok_0;
            &&& Some(e) == auth_email(data)
            &&& session_info_view(old.insert(t, authed_session(old, t, e, user)), t)
                == ResponseView::ok("SESSION_INFO"@).with_token(t).with_auth(true).with_email(Some(e)).with_msg("Session info"@)
        }),
{
}

/// Two `AUTH` requests for addresses that are equal once trimmed and
/// lower-cased get the same token, and signing in the second time leaves the
/// sessions as the first left them.
pub proof fn law_auth_is_idempotent(d1: Json, d2: Json, old: Map<Seq<char>, SessionView>, user: Seq<u8>)
    requires
        auth_outcome(d1) is Ok,
        auth_email(d1) == auth_email(d2),
    ensures
        auth_outcome(d2) == auth_outcome(d1),
        ({
            let (e, t) = auth_outcome(d1)->Ok_0;
            let once = old.insert(t, authed_session(old, t, e, user));
            once.insert(t, authed_session(once, t, e, user)) == once
        }),
{
    let (e, t) = auth_outcome(d1)->Ok_0;
    let once = old.insert(t, authed_session(old, t, e, user));
    assert(once.insert(t, authed_session(once, t, e, user)) =~= once);
}

} // verus!
