use wmtp_server::comm::{Request, Response};
use wmtp_server::commands::session_cmds::{
    auth_complete, auth_request, auth_user, handle_init, handle_logout, handle_resume, handle_resume_at, handle_session_info,
    handle_session_kill, handle_session_list, handle_session_resume_suspended, handle_session_suspend,
};
use wmtp_server::json::JsonValue;
use wmtp_server::oid::Oid;
use wmtp_server::records::UserDoc;
use wmtp_server::session::{create_session_store, SessionStore, WmtpSession};
use wmtp_server::token::{
    generate_ephemeral_token, issue_jwt, issue_jwt_at, jwt_secret, token_from_email, verify_jwt, verify_jwt_at,
    DEFAULT_SECRET, JWT_EXPIRY_SECS,
};

fn s(x: &str) -> JsonValue {
    JsonValue::Str(x.to_string())
}

fn o(members: Vec<(&str, JsonValue)>) -> JsonValue {
    JsonValue::Object(members.into_iter().map(|(k, v)| (k.to_string(), v)).collect())
}

fn req(cmd: &str, data: JsonValue) -> Request {
    Request { cmd: cmd.to_string(), data }
}

fn oid_from_hex(hex: &str) -> Oid {
    let mut bytes = [0u8; 12];
    for (i, b) in bytes.iter_mut().enumerate() {
        *b = u8::from_str_radix(&hex[2 * i..2 * i + 2], 16).unwrap();
    }
    Oid { bytes }
}

fn user() -> Oid {
    oid_from_hex("65a1b2c3d4e5f60718293a4b")
}

fn session(token: &str, email: Option<&str>, authenticated: bool, suspended: bool, user_id: Option<Oid>) -> WmtpSession {
    WmtpSession {
        token: token.to_string(),
        email: email.map(|e| e.to_string()),
        authenticated,
        suspended,
        user_id,
    }
}

fn store_with(sessions: Vec<WmtpSession>) -> SessionStore {
    let mut st = create_session_store();
    for x in sessions {
        st.insert(x);
    }
    st
}

fn assert_err(r: &Response, cmd: &str, msg: &str) {
    assert_eq!(r.cmd, cmd);
    assert_eq!(r.status, "ERR");
    assert_eq!(r.msg.as_deref(), Some(msg));
}

#[test]
fn init_opens_an_unauthenticated_session() {
    let mut st = create_session_store();
    let r = handle_init(&req("INIT", JsonValue::Null), &mut st);
    assert_eq!(r.cmd, "SESSION_INIT");
    assert_eq!(r.status, "OK");
    assert_eq!(r.msg.as_deref(), Some("Session initialized"));
    assert_eq!(r.auth, Some(false));
    let token = r.session_token.clone().unwrap();
    assert_eq!(token.len(), 32);
    assert!(token.chars().all(|c| c.is_ascii_alphanumeric()));
    let stored = st.get(&token).unwrap();
    assert!(!stored.authenticated);
    assert!(stored.email.is_none());
}

#[test]
fn ephemeral_tokens_are_32_alphanumerics() {
    let a = generate_ephemeral_token();
    let b = generate_ephemeral_token();
    assert_eq!(a.len(), 32);
    assert!(a.chars().all(|c| c.is_ascii_alphanumeric()));
    assert_ne!(a, b);
}

#[test]
fn token_from_email_is_the_sha256_of_the_normalised_address() {
    assert_eq!(token_from_email("user@example.com"), "b4c9a289323b21a01c3e940f150eb9b8c542587f1abfd8f0e1cc1ffc5e475514");
    assert_eq!(token_from_email("  User@Example.COM "), token_from_email("user@example.com"));
}

#[test]
fn auth_rejects_missing_or_blank_email() {
    let e = auth_request(&req("AUTH", o(vec![]))).err().unwrap();
    assert_err(&e, "AUTH", "Missing or empty email");
    let e = auth_request(&req("AUTH", o(vec![("email", s("   "))]))).err().unwrap();
    assert_err(&e, "AUTH", "Missing or empty email");
    let e = auth_request(&req("AUTH", o(vec![("email", JsonValue::Bool(true))]))).err().unwrap();
    assert_err(&e, "AUTH", "Missing or empty email");
}

#[test]
fn auth_rejects_addresses_without_at_or_dot() {
    let e = auth_request(&req("AUTH", o(vec![("email", s("userexample.com"))]))).err().unwrap();
    assert_err(&e, "AUTH", "Invalid email format");
    let e = auth_request(&req("AUTH", o(vec![("email", s("user@example"))]))).err().unwrap();
    assert_err(&e, "AUTH", "Invalid email format");
}

#[test]
fn auth_token_is_stable_for_one_address() {
    let a = auth_request(&req("AUTH", o(vec![("email", s(" User@Example.com "))]))).ok().unwrap();
    let b = auth_request(&req("AUTH", o(vec![("email", s("user@example.com"))]))).ok().unwrap();
    assert_eq!(a.email, "user@example.com");
    assert_eq!(a.token, b.token);
    assert_eq!(a.token, token_from_email("user@example.com"));
}

#[test]
fn auth_complete_signs_the_session_in() {
    let mut st = create_session_store();
    let r = auth_complete(&mut st, "tok".to_string(), "user@example.com".to_string(), user());
    assert_eq!(r.cmd, "AUTH_OK");
    assert_eq!(r.status, "OK");
    assert_eq!(r.session_token.as_deref(), Some("tok"));
    assert_eq!(r.auth, Some(true));
    assert_eq!(r.msg.as_deref(), Some("Authentication successful"));
    let sess = st.get("tok").unwrap();
    assert!(sess.authenticated);
    assert_eq!(sess.email.as_deref(), Some("user@example.com"));
    assert_eq!(sess.user_id.unwrap().bytes, user().bytes);
}

#[test]
fn auth_complete_keeps_a_suspension_flag() {
    let mut st = store_with(vec![session("tok", None, false, true, None)]);
    auth_complete(&mut st, "tok".to_string(), "a@b.c".to_string(), user());
    let sess = st.get("tok").unwrap();
    assert!(sess.suspended);
    assert!(sess.authenticated);
}

#[test]
fn resume_echoes_the_token_sent() {
    let st = store_with(vec![session("tok", Some("a@b.c"), true, false, Some(user()))]);
    let r = handle_resume_at(&req("RESUME", o(vec![("token", s(" tok "))])), &st, "secret", 1_000);
    assert_eq!(r.cmd, "SESSION_RESUMED");
    assert_eq!(r.status, "OK");
    assert_eq!(r.msg.as_deref(), Some("Session resumed"));
    assert_eq!(r.auth, Some(true));
    assert_eq!(r.email.as_deref(), Some("a@b.c"));
    assert_eq!(r.session_token.as_deref(), Some("tok"));
}

#[test]
fn resume_with_a_signed_token() {
    let st = store_with(vec![session("tok", Some("a@b.c"), true, false, None)]);
    let jwt = issue_jwt_at("a@b.c", "tok", "secret", 500);
    let r = handle_resume_at(&req("RESUME", o(vec![("token", s(&jwt))])), &st, "secret", 600);
    assert_eq!(r.status, "OK");
    assert_eq!(r.cmd, "SESSION_RESUMED");
    assert_eq!(r.session_token.as_deref(), Some(jwt.as_str()));
    let late = handle_resume_at(&req("RESUME", o(vec![("token", s(&jwt))])), &st, "secret", 500 + JWT_EXPIRY_SECS + 1);
    assert_err(&late, "RESUME", "Session not found or expired");
}

#[test]
fn resume_errors() {
    let st = store_with(vec![]);
    let r = handle_resume_at(&req("RESUME", o(vec![])), &st, "secret", 1);
    assert_err(&r, "RESUME", "Missing or empty token");
    let r = handle_resume_at(&req("RESUME", o(vec![("token", s("  "))])), &st, "secret", 1);
    assert_err(&r, "RESUME", "Missing or empty token");
    let r = handle_resume(&req("RESUME", o(vec![("token", s("nope"))])), &st, "secret");
    assert_err(&r, "RESUME", "Session not found or expired");
}

#[test]
fn jwt_round_trip_until_expiry() {
    let jwt = issue_jwt_at("a@b.c", "tok", "k", 100);
    assert_eq!(jwt.split('.').count(), 3);
    let c = verify_jwt_at(&jwt, "k", 100 + JWT_EXPIRY_SECS).unwrap();
    assert_eq!(c.email, "a@b.c");
    assert_eq!(c.session_token, "tok");
    assert!(verify_jwt_at(&jwt, "k", 101 + JWT_EXPIRY_SECS).is_none());
    assert!(verify_jwt_at(&jwt, "other", 100).is_none());
    assert!(verify_jwt_at("not.a.jwt", "k", 100).is_none());
    assert!(verify_jwt_at("nodots", "k", 100).is_none());
    let now_jwt = issue_jwt("x@y.z", "t2", "k");
    let c2 = verify_jwt(&now_jwt, "k").unwrap();
    assert_eq!(c2.session_token, "t2");
}

#[test]
fn jwt_secret_defaults() {
    assert_eq!(jwt_secret(None), DEFAULT_SECRET);
    assert_eq!(DEFAULT_SECRET, "wmtp-default-secret-change-in-production");
    assert_eq!(jwt_secret(Some("mine".to_string())), "mine");
    assert_eq!(JWT_EXPIRY_SECS, 7 * 24 * 3600);
}

#[test]
fn logout_forgets_the_session() {
    let mut st = store_with(vec![session("tok", None, false, false, None)]);
    let r = handle_logout(&req("LOGOUT", o(vec![("token", s("tok"))])), &mut st);
    assert_eq!(r.cmd, "LOGOUT_OK");
    assert_eq!(r.msg.as_deref(), Some("Logged out"));
    assert!(st.get("tok").is_none());
    let r = handle_logout(&req("LOGOUT", o(vec![])), &mut st);
    assert_err(&r, "LOGOUT", "Missing or empty token");
}

#[test]
fn session_info_reports_the_session() {
    let st = store_with(vec![session("tok", Some("a@b.c"), true, false, None)]);
    let r = handle_session_info("tok", &st, &req("SESSION_INFO", JsonValue::Null));
    assert_eq!(r.cmd, "SESSION_INFO");
    assert_eq!(r.session_token.as_deref(), Some("tok"));
    assert_eq!(r.auth, Some(true));
    assert_eq!(r.email.as_deref(), Some("a@b.c"));
    assert_eq!(r.msg.as_deref(), Some("Session info"));
    assert_err(&handle_session_info("", &st, &req("SESSION_INFO", JsonValue::Null)), "SESSION_INFO", "Missing token");
    assert_err(&handle_session_info("x", &st, &req("SESSION_INFO", JsonValue::Null)), "SESSION_INFO", "Session not found");
}

#[test]
fn session_list_names_each_session_once() {
    let st = store_with(vec![session("a", None, false, false, None), session("b", Some("b@c.d"), true, false, None)]);
    let r = handle_session_list(&req("SESSION_LIST", JsonValue::Null), &st);
    assert_eq!(r.cmd, "SESSION_LIST");
    assert_eq!(r.msg.as_deref(), Some("Active sessions"));
    let list = r.sessions.unwrap();
    assert_eq!(list.len(), 2);
    let mut tokens: Vec<String> = list.iter().map(|x| x.session_token.clone()).collect();
    tokens.sort();
    assert_eq!(tokens, vec!["a".to_string(), "b".to_string()]);
}

#[test]
fn session_kill_removes_the_session() {
    let mut st = store_with(vec![session("tok", None, true, false, None)]);
    let r = handle_session_kill(&req("SESSION_KILL", o(vec![("session_token", s("tok"))])), &mut st);
    assert_eq!(r.cmd, "SESSION_KILL");
    assert_eq!(r.status, "OK");
    assert_eq!(r.auth, Some(false));
    assert_eq!(r.msg.as_deref(), Some("Session killed"));
    assert!(st.get("tok").is_none());
    let r = handle_session_kill(&req("SESSION_KILL", o(vec![("token", s("tok"))])), &mut st);
    assert_err(&r, "SESSION_KILL", "Session not found");
    let r = handle_session_kill(&req("SESSION_KILL", o(vec![])), &mut st);
    assert_err(&r, "SESSION_KILL", "Missing or empty token");
}

#[test]
fn suspend_then_resume_restores_the_session() {
    let mut st = store_with(vec![session("tok", Some("a@b.c"), true, false, Some(user()))]);
    let r = handle_session_suspend("tok", &mut st, &req("SESSION_SUSPEND", JsonValue::Null));
    assert_eq!(r.cmd, "SESSION_SUSPEND");
    assert_eq!(r.auth, Some(false));
    assert_eq!(r.msg.as_deref(), Some("Session suspended"));
    assert!(st.get("tok").unwrap().suspended);
    assert!(!st.get("tok").unwrap().authenticated);
    let r = handle_session_resume_suspended("tok", &mut st, &req("SESSION_RESUME_SUSPENDED", JsonValue::Null));
    assert_eq!(r.status, "OK");
    assert_eq!(r.auth, Some(true));
    assert_eq!(r.msg.as_deref(), Some("Session resumed from suspended state"));
    let sess = st.get("tok").unwrap();
    assert!(!sess.suspended);
    assert!(sess.authenticated);
    assert_eq!(sess.email.as_deref(), Some("a@b.c"));
}

#[test]
fn resume_suspended_needs_a_suspension() {
    let mut st = store_with(vec![session("tok", None, true, false, None)]);
    let r = handle_session_resume_suspended("tok", &mut st, &req("X", JsonValue::Null));
    assert_err(&r, "SESSION_RESUME_SUSPENDED", "Session is not suspended");
    let r = handle_session_resume_suspended("", &mut st, &req("X", JsonValue::Null));
    assert_err(&r, "SESSION_RESUME_SUSPENDED", "Missing token");
    let r = handle_session_suspend("zz", &mut st, &req("X", JsonValue::Null));
    assert_err(&r, "SESSION_SUSPEND", "Session not found");
    let r = handle_session_suspend("", &mut st, &req("X", JsonValue::Null));
    assert_err(&r, "SESSION_SUSPEND", "Missing token");
}

#[test]
fn auth_then_session_info_reports_the_address() {
    let mut st = store_with(vec![session("eph", None, false, false, None)]);
    let a = auth_request(&req("AUTH", o(vec![("email", s("\u{3000} Alice@Example.COM\t"))]))).ok().unwrap();
    assert_eq!(a.email, "alice@example.com");
    let r = auth_complete(&mut st, a.token.clone(), a.email.clone(), user());
    assert_eq!(r.session_token.as_deref(), Some(a.token.as_str()));
    let info = handle_session_info(&a.token, &st, &req("SESSION_INFO", JsonValue::Null));
    assert_eq!(info.cmd, "SESSION_INFO");
    assert_eq!(info.status, "OK");
    assert_eq!(info.msg.as_deref(), Some("Session info"));
    assert_eq!(info.session_token.as_deref(), Some(a.token.as_str()));
    assert_eq!(info.auth, Some(true));
    assert_eq!(info.email.as_deref(), Some("alice@example.com"));
}

#[test]
fn auth_twice_keeps_one_session() {
    let mut st = create_session_store();
    let a = auth_request(&req("AUTH", o(vec![("email", s("bob@example.com"))]))).ok().unwrap();
    let b = auth_request(&req("AUTH", o(vec![("email", s(" BOB@example.com"))]))).ok().unwrap();
    auth_complete(&mut st, a.token.clone(), a.email.clone(), user());
    auth_complete(&mut st, b.token.clone(), b.email.clone(), user());
    assert_eq!(a.token, b.token);
    assert_eq!(st.summaries().len(), 1);
    let sess = st.get(&a.token).unwrap();
    assert!(sess.authenticated);
    assert_eq!(sess.email.as_deref(), Some("bob@example.com"));
}

#[test]
fn auth_user_creates_only_an_unknown_user() {
    let existing = UserDoc {
        id: user(),
        email: "bob@example.com".to_string(),
        name: Some("Bob".to_string()),
        avatar_url: None,
        timezone: None,
        signature: None,
        created_at: 1,
    };
    let fresh = oid_from_hex("aaaaaaaaaaaaaaaaaaaaaaaa");
    let (id, created) = auth_user(Some(existing), fresh, "bob@example.com", 99);
    assert_eq!(id.bytes, user().bytes);
    assert!(created.is_none());
    let (id, created) = auth_user(None, fresh, "new@example.com", 99);
    assert_eq!(id.bytes, fresh.bytes);
    let u = created.unwrap();
    assert_eq!(u.id.bytes, fresh.bytes);
    assert_eq!(u.email, "new@example.com");
    assert_eq!(u.created_at, 99);
    assert!(u.name.is_none() && u.avatar_url.is_none() && u.timezone.is_none() && u.signature.is_none());
}
