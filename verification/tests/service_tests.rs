use wmtp_server::comm::{Reply, Request, Response};
use wmtp_server::commands::message_cmds::{msg_copy_reply, plan_msg_get};
use wmtp_server::commands::query_cmds::plan_search_adv;
use wmtp_server::commands::attach_cmds::{attach_get_reply, attach_upload_init_reply, plan_attach_get, plan_attach_upload_init};
use wmtp_server::commands::info_cmds::{
    handle_capabilities, handle_config_public_get, handle_connection_info, handle_debug_echo, handle_hb,
    handle_mb_subscribe, handle_mb_unsubscribe, handle_pong, handle_search_suggest, handle_time, handle_version_check,
    make_hb_response, make_latency_response, make_ping_response,
};
use wmtp_server::commands::user_cmds::{
    plan_pref_get, plan_pref_set, plan_profile_get, plan_profile_set, pref_get_reply, pref_set_reply, profile_get_reply,
    profile_set_reply,
};
use wmtp_server::connection::{connection_summaries, create_connection_store, handle_connection_list, make_connection_info, register_connection, unregister_connection};
use wmtp_server::json::{JsonNumber, JsonValue};
use wmtp_server::oid::Oid;
use wmtp_server::records::{attachment_of_upload, file_name_of_upload, new_pending_upload, new_user, preferences_of};
use wmtp_server::router::{
    info_reply, parse_error_reply, rate_limit_info_reply, route, status_reply, unknown_command_reply, uptime_reply, Command,
};
use wmtp_server::session::{create_session_store, SessionStore, WmtpSession};
use wmtp_server::stream::{attach_header, control_step, header_step, ControlAction, ControlEvent, HeaderStep};

fn s(x: &str) -> JsonValue {
    JsonValue::Str(x.to_string())
}

fn n(x: u64) -> JsonValue {
    JsonValue::Number(JsonNumber::PosInt(x))
}

fn o(members: Vec<(&str, JsonValue)>) -> JsonValue {
    JsonValue::Object(members.into_iter().map(|(k, v)| (k.to_string(), v)).collect())
}

fn req(cmd: &str, data: JsonValue) -> Request {
    Request { cmd: cmd.to_string(), data }
}

fn oid_from_hex(hex: &str) -> Oid {
    let mut bytes = [0u8; 12];
    for (i, b) in bytes.iter_mut().enumerate() {
        *b = u8::from_str_radix(&hex[2 * i..2 * i + 2], 16).unwrap();
    }
    Oid { bytes }
}

fn user() -> Oid {
    oid_from_hex("65a1b2c3d4e5f60718293a4b")
}

fn sessions() -> SessionStore {
    let mut st = create_session_store();
    st.insert(WmtpSession { token: "good".to_string(), email: Some("me@x.io".to_string()), authenticated: true, suspended: false, user_id: Some(user()) });
    st.insert(WmtpSession { token: "half".to_string(), email: None, authenticated: false, suspended: false, user_id: Some(user()) });
    st
}

fn assert_err(r: &Response, cmd: &str, msg: &str) {
    assert_eq!(r.cmd, cmd);
    assert_eq!(r.status, "ERR");
    assert_eq!(r.msg.as_deref(), Some(msg));
}

fn field<'a>(v: &'a JsonValue, k: &str) -> &'a JsonValue {
    v.get(k).unwrap_or_else(|| panic!("missing member {}", k))
}

fn text_of<'a>(v: &'a JsonValue, k: &str) -> &'a str {
    field(v, k).as_str().unwrap()
}

#[test]
fn message_times_are_written_in_rfc3339() {
    let m = wmtp_server::mailbox::inbox_message(user(), user(), "a@b.c", vec![], "S", "b", 1_698_400_800_123);
    let f = wmtp_server::mailbox::global_folder(user(), "INBOX", "Inbox");
    let info = wmtp_server::mailbox::folder_info(f, 0, 1, Some(m));
    assert_eq!(info.latest_received_at.as_deref(), Some("2023-10-27T10:00:00.123+00:00"));
    let m0 = wmtp_server::mailbox::inbox_message(user(), user(), "a@b.c", vec![], "S", "b", 0);
    let f0 = wmtp_server::mailbox::global_folder(user(), "INBOX", "Inbox");
    let info0 = wmtp_server::mailbox::folder_info(f0, 0, 1, Some(m0));
    assert_eq!(info0.latest_received_at.as_deref(), Some("1970-01-01T00:00:00+00:00"));
}

#[test]
fn search_dates_are_read_as_rfc3339() {
    let st = sessions();
    let data = o(vec![("date_from", s("2023-10-27T12:00:00+02:00")), ("date_to", s("yesterday"))]);
    let t = plan_search_adv(&req("SEARCH_ADV", data), &st, "good").ok().unwrap();
    assert_eq!(t.filter.received_from, Some(1_698_400_800_000));
    assert_eq!(t.filter.received_to, None);
}

#[test]
fn object_ids_are_read_in_either_case_and_written_in_lower_case() {
    let st = sessions();
    let t = plan_msg_get(&req("MSG_GET", o(vec![("id", s("65A1B2C3D4E5F60718293A4B"))])), &st, "good").ok().unwrap();
    assert_eq!(t.message.id.bytes, user().bytes);
    let r = msg_copy_reply("x", "WORK", Ok(Some(("INBOX".to_string(), t.message.id))));
    assert_eq!(text_of(r.data.as_ref().unwrap(), "new_id"), "65a1b2c3d4e5f60718293a4b");
    let e = plan_msg_get(&req("MSG_GET", o(vec![("id", s("65a1b2c3"))])), &st, "good").err().unwrap();
    assert_err(&e, "MSG_GET", "Invalid 'id' format");
}

#[test]
fn profile_get_scenario() {
    let st = sessions();
    assert_err(&plan_profile_get(&st, "half").err().unwrap(), "PROFILE_GET", "User not authenticated");
    let u = plan_profile_get(&st, "good").ok().unwrap();
    let mut doc = new_user(u, "user@example.com", 1_672_531_200_000);
    doc.name = Some("John Doe".to_string());
    let d = match profile_get_reply(Ok(Some(doc))) {
        Reply::Doc(d) => d,
        Reply::Std(_) => panic!(),
    };
    assert_eq!(text_of(&d, "cmd"), "PROFILE_GET");
    assert_eq!(text_of(&d, "msg"), "User profile");
    let p = field(&d, "profile");
    assert_eq!(text_of(p, "id"), "65a1b2c3d4e5f60718293a4b");
    assert_eq!(text_of(p, "email"), "user@example.com");
    assert_eq!(text_of(p, "name"), "John Doe");
    assert!(field(p, "avatar_url").is_null());
    assert_eq!(text_of(p, "created_at"), "2023-01-01T00:00:00+00:00");
    match profile_get_reply(Ok(None)) {
        Reply::Std(r) => assert_err(&r, "PROFILE_GET", "User not found"),
        Reply::Doc(_) => panic!(),
    }
    match profile_get_reply(Err(())) {
        Reply::Std(r) => assert_err(&r, "PROFILE_GET", "Database error"),
        Reply::Doc(_) => panic!(),
    }
}

#[test]
fn profile_set_needs_a_field() {
    let st = sessions();
    let e = plan_profile_set(&req("PROFILE_SET", o(vec![("name", n(1))])), &st, "good").err().unwrap();
    assert_err(&e, "PROFILE_SET", "No fields to update");
    let (_, p) = plan_profile_set(&req("PROFILE_SET", o(vec![("timezone", s("UTC"))])), &st, "good").ok().unwrap();
    assert_eq!(p.timezone.as_deref(), Some("UTC"));
    assert!(p.name.is_none());
    let r = profile_set_reply(Ok(1));
    assert_eq!(r.msg.as_deref(), Some("Profile updated"));
    assert_err(&profile_set_reply(Ok(0)), "PROFILE_SET", "User not found");
    assert_err(&profile_set_reply(Err(())), "PROFILE_SET", "Database error");
}

#[test]
fn preferences_default_and_stored() {
    let st = sessions();
    let e = plan_pref_get(&st, "").err().unwrap();
    assert_err(&e, "PREF_GET", "Missing session token");
    assert_err(&plan_pref_get(&st, "half").err().unwrap(), "PREF_GET", "User not authenticated");
    let u = plan_pref_get(&st, "good").ok().unwrap();
    let r = pref_get_reply(Ok(None));
    assert_eq!(r.cmd, "PREF_GET_OK");
    let d = r.data.unwrap();
    assert_eq!(text_of(&d, "theme"), "light");
    assert_eq!(field(&d, "notifications_enabled").as_bool(), Some(true));
    assert_eq!(text_of(&d, "language"), "en");
    let r = pref_get_reply(Ok(Some(preferences_of(u, Some("dark"), Some(false), None))));
    let d = r.data.unwrap();
    assert_eq!(text_of(field(&d, "userId"), "$oid"), "65a1b2c3d4e5f60718293a4b");
    assert_eq!(text_of(&d, "theme"), "dark");
    assert_eq!(field(&d, "notifications_enabled").as_bool(), Some(false));
    assert_eq!(text_of(&d, "language"), "en");
    assert_err(&pref_get_reply(Err("down".to_string())), "PREF_GET", "Database error: down");
}

#[test]
fn pref_set_fills_defaults() {
    let st = sessions();
    let e = plan_pref_set(&req("PREF_SET", o(vec![])), &st, "half").err().unwrap();
    assert_err(&e, "PREF_SET", "User not authenticated");
    let p = plan_pref_set(&req("PREF_SET", o(vec![("language", s("fr"))])), &st, "good").ok().unwrap();
    assert_eq!(p.theme, "light");
    assert!(p.notifications_enabled);
    assert_eq!(p.language, "fr");
    let r = pref_set_reply(Ok(()));
    assert_eq!(r.cmd, "PREF_SET_OK");
    assert_eq!(r.msg.as_deref(), Some("Preferences updated successfully"));
    assert_err(&pref_set_reply(Err("x".to_string())), "PREF_SET", "Database error: x");
}

#[test]
fn attach_upload_init_scenario() {
    let st = sessions();
    let data = o(vec![("filename", s("document.pdf")), ("mime_type", s("application/pdf")), ("size_bytes", n(102400))]);
    let t = plan_attach_upload_init(&req("ATTACH_UPLOAD_INIT", data), &st, "good").ok().unwrap();
    assert!(t.upload_id.starts_with("upl_"));
    assert_eq!(t.upload_id.len(), 20);
    assert!(t.upload_id[4..].chars().all(|c| c.is_ascii_alphanumeric()));
    let r = attach_upload_init_reply(&t, Ok(()));
    assert_eq!(r.msg.as_deref(), Some("Attachment upload initialized"));
    let up = field(r.data.as_ref().unwrap(), "upload");
    assert_eq!(text_of(up, "upload_id"), t.upload_id);
    assert_eq!(text_of(up, "filename"), "document.pdf");
    assert_eq!(text_of(up, "mime_type"), "application/pdf");
    assert_eq!(field(up, "size_bytes").as_u64(), Some(102400));
    assert_err(&attach_upload_init_reply(&t, Err(())), "ATTACH_UPLOAD_INIT", "Database error");
}

#[test]
fn attach_upload_init_defaults_and_errors() {
    let st = sessions();
    let t = plan_attach_upload_init(&req("ATTACH_UPLOAD_INIT", o(vec![("filename", s("a"))])), &st, "good").ok().unwrap();
    assert_eq!(t.mime_type, "application/octet-stream");
    assert_eq!(t.size_bytes, 0);
    let e = plan_attach_upload_init(&req("ATTACH_UPLOAD_INIT", o(vec![])), &st, "good").err().unwrap();
    assert_err(&e, "ATTACH_UPLOAD_INIT", "Missing filename");
}

#[test]
fn attach_get_checks_the_id_before_the_session() {
    let st = sessions();
    let e = plan_attach_get(&req("ATTACH_GET", o(vec![])), &st, "nobody").err().unwrap();
    assert_err(&e, "ATTACH_GET", "Missing attachment_id");
    let e = plan_attach_get(&req("ATTACH_GET", o(vec![("attachment_id", s("upl_1"))])), &st, "nobody").err().unwrap();
    assert_err(&e, "ATTACH_GET", "Invalid or expired session");
    let e = plan_attach_get(&req("ATTACH_GET", o(vec![])), &st, "").err().unwrap();
    assert_err(&e, "ATTACH_GET", "Missing session token");
    let (_, id) = plan_attach_get(&req("ATTACH_GET", o(vec![("attachment_id", s("upl_1"))])), &st, "good").ok().unwrap();
    assert_eq!(id, "upl_1");
    let mut p = new_pending_upload(user(), user(), "upl_1", "a.pdf", "application/pdf", 3, 0);
    assert!(!p.completed);
    assert_err(&attach_get_reply(Ok(Some(new_pending_upload(user(), user(), "upl_1", "a.pdf", "application/pdf", 3, 0)))), "ATTACH_GET", "Attachment upload not completed");
    p.completed = true;
    let r = attach_get_reply(Ok(Some(p)));
    assert_eq!(r.msg.as_deref(), Some("Attachment fetched"));
    let d = r.data.unwrap();
    assert_eq!(text_of(&d, "attachment_id"), "upl_1");
    assert_eq!(field(&d, "size_bytes").as_u64(), Some(3));
    assert_err(&attach_get_reply(Ok(None)), "ATTACH_GET", "Attachment not found");
    assert_err(&attach_get_reply(Err(())), "ATTACH_GET", "Database error");
}

#[test]
fn only_completed_uploads_are_attached() {
    let mut p = new_pending_upload(user(), user(), "upl_9", "f.txt", "text/plain", 12, 0);
    assert!(attachment_of_upload("upl_9", &p).is_none());
    p.completed = true;
    let a = attachment_of_upload("upl_9", &p).unwrap();
    assert_eq!(a.id, "upl_9");
    assert_eq!(a.gridfs_id, "attach:upl_9");
    assert_eq!(a.size_bytes, 12);
    assert_eq!(file_name_of_upload("x"), "attach:x");
}

#[test]
fn routing_ignores_case() {
    let (c, up) = route("msg_send");
    assert_eq!(c, Command::MsgSend);
    assert_eq!(up, "MSG_SEND");
    assert_eq!(route("Ping").0, Command::Ping);
    assert_eq!(route("CONNECTION_LIST").0, Command::ConnectionList);
    let (c, up) = route("frobnicate");
    assert_eq!(c, Command::Unknown);
    let r = unknown_command_reply(&up);
    assert_err(&r, "UNKNOWN", "Unknown command: FROBNICATE");
}

#[test]
fn dispatcher_answers() {
    assert_err(&parse_error_reply("EOF while parsing"), "PARSE", "Invalid JSON: EOF while parsing");
    assert_eq!(rate_limit_info_reply().msg.as_deref(), Some("No active limits"));
    assert_eq!(info_reply().msg.as_deref(), Some("WMTP Server v1.0.0"));
    assert_eq!(status_reply().msg.as_deref(), Some("Running"));
    let r = uptime_reply(42);
    assert_eq!(r.cmd, "UPTIME");
    assert_eq!(r.uptime_seconds, Some(42));
}

#[test]
fn header_lines_are_framed_by_newline() {
    match header_step("", b"{\"upload_id\":") {
        HeaderStep::More(t) => assert_eq!(t, "{\"upload_id\":"),
        _ => panic!("expected more"),
    }
    match header_step("{\"a\":1}", b"  \nBINARY") {
        HeaderStep::Line(line, rest) => {
            assert_eq!(line, "{\"a\":1}");
            assert_eq!(rest, "BINARY");
        },
        _ => panic!("expected a line"),
    }
    match header_step("x", &[0xff, 0xfe]) {
        HeaderStep::Skip => {},
        _ => panic!("expected a skip"),
    }
    match header_step("", b"a\nb\nc") {
        HeaderStep::Line(line, rest) => {
            assert_eq!(line, "a");
            assert_eq!(rest, "b\nc");
        },
        _ => panic!("expected a line"),
    }
}

#[test]
fn control_stream_steps() {
    assert!(matches!(control_step(ControlEvent::Tick), ControlAction::SendHeartbeat));
    assert!(matches!(control_step(ControlEvent::Finished), ControlAction::Close));
    assert!(matches!(control_step(ControlEvent::Read(vec![])), ControlAction::Close));
    assert!(matches!(control_step(ControlEvent::Read(vec![0xc3])), ControlAction::Ignore));
    match control_step(ControlEvent::Read(b"  {\"cmd\":\"PING\"}\n".to_vec())) {
        ControlAction::Handle(t) => assert_eq!(t, "{\"cmd\":\"PING\"}"),
        _ => panic!("expected a command"),
    }
}

#[test]
fn health_answers() {
    let r = handle_pong(&req("PONG", JsonValue::Null));
    assert_eq!(r.msg.as_deref(), Some("Server received PING, replying with PONG"));
    assert_eq!(handle_hb(&req("HB", JsonValue::Null)).msg.as_deref(), Some("Heartbeat acknowledged"));
    let r = handle_debug_echo(&req("DEBUG_ECHO", o(vec![("x", n(1))])));
    assert_eq!(field(r.data.as_ref().unwrap(), "x").as_u64(), Some(1));
    let r = handle_connection_info(&req("CONNECTION_INFO", JsonValue::Null), "127.0.0.1:5000");
    let d = r.data.unwrap();
    assert_eq!(text_of(&d, "protocol"), "WebTransport/QUIC");
    assert_eq!(text_of(&d, "remote_addr"), "127.0.0.1:5000");
    let p = make_ping_response("T".to_string(), 3);
    assert_eq!((p.cmd.as_str(), p.msg.as_deref(), p.uptime_seconds), ("PONG", Some("PONG"), Some(3)));
    let l = make_latency_response("T".to_string(), 3);
    assert_eq!((l.cmd.as_str(), l.msg.as_deref()), ("LATENCY_PONG", Some("Latency ping")));
    let h = make_hb_response("T".to_string(), 4);
    assert_eq!((h.cmd.as_str(), h.msg.as_deref(), h.server_time.as_deref()), ("HB", Some("Heartbeat"), Some("T")));
}

#[test]
fn admin_answers() {
    let r = handle_capabilities(&req("CAPABILITIES", JsonValue::Null));
    assert_eq!(r.cmd, "CAPABILITIES");
    assert!(r.data.is_some());
    let r = handle_config_public_get(&req("CONFIG_PUBLIC_GET", JsonValue::Null));
    assert_eq!(r.status, "OK");
    let r = handle_version_check(&req("VERSION_CHECK", o(vec![("client_version", s("0.9"))])));
    assert_eq!(r.status, "OK");
    let r = handle_time(&req("TIME", JsonValue::Null));
    assert_eq!(r.cmd, "TIME");
    assert_eq!(r.status, "OK");
    let d = r.data.unwrap();
    let ts = match d.get("timestamp") {
        Some(JsonValue::Number(JsonNumber::PosInt(t))) => *t as i64,
        Some(JsonValue::Number(JsonNumber::NegInt(t))) => *t,
        other => panic!("timestamp missing: {:?}", other.is_some()),
    };
    assert!(ts > 1_600_000_000);
    let utc = match d.get("utc") {
        Some(JsonValue::Str(u)) => u.clone(),
        _ => panic!("utc missing"),
    };
    assert!(utc.ends_with("+00:00"));
    let parsed = chrono::DateTime::parse_from_rfc3339(&utc).unwrap();
    assert_eq!(parsed.timestamp(), ts);
    assert!(matches!(d.get("timezone"), Some(JsonValue::Str(z)) if z == "UTC"));
    let r = handle_mb_subscribe(&req("MB_SUBSCRIBE", o(vec![("folder", s("INBOX"))])));
    assert_eq!(r.msg.as_deref(), Some("Subscribed to notifications for folder: INBOX"));
    let r = handle_mb_unsubscribe(&req("MB_UNSUBSCRIBE", o(vec![])));
    assert_eq!(r.msg.as_deref(), Some("Unsubscribed from notifications for folder: unknown"));
    let r = handle_search_suggest(&req("SEARCH_SUGGEST", o(vec![("query", s("bob"))])));
    let sug = field(r.data.as_ref().unwrap(), "suggestions").as_array().unwrap();
    assert_eq!(sug[0].as_str(), Some("from:bob"));
    assert_eq!(sug[2].as_str(), Some("has:attachment bob"));
}

#[test]
fn connection_list_scenario() {
    let mut store = create_connection_store();
    register_connection(&mut store, 1, Some("127.0.0.1:54321".to_string()));
    register_connection(&mut store, 2, None);
    assert_eq!(connection_summaries(&store).len(), 2);
    unregister_connection(&mut store, 2);
    let r = handle_connection_list(&req("CONNECTION_LIST", JsonValue::Null), &store);
    assert_eq!(r.cmd, "CONNECTION_LIST");
    assert_eq!(r.msg.as_deref(), Some("Active connections"));
    assert_eq!(r.total, Some(1));
    let list = r.connections.unwrap();
    assert_eq!(list[0].id, 1);
    assert_eq!(list[0].remote_addr.as_deref(), Some("127.0.0.1:54321"));
    assert!(!list[0].authenticated);
    let c = make_connection_info(7, None);
    assert_eq!(c.id, 7);
    assert!(c.session_token.is_none());
}

#[test]
fn attachment_header_needs_its_four_members() {
    let h = attach_header(&o(vec![
        ("upload_id", s("upl_1")),
        ("filename", s("a.txt")),
        ("mime_type", s("text/plain")),
        ("size_bytes", n(12)),
        ("extra", JsonValue::Null),
    ]))
    .unwrap();
    assert_eq!((h.upload_id.as_str(), h.filename.as_str(), h.mime_type.as_str(), h.size_bytes), ("upl_1", "a.txt", "text/plain", 12));
    let h = attach_header(&JsonValue::Array(vec![s("upl_2"), s("b.bin"), s("application/octet-stream"), n(0)])).unwrap();
    assert_eq!((h.upload_id.as_str(), h.size_bytes), ("upl_2", 0));
    assert!(attach_header(&o(vec![("upload_id", s("upl_1")), ("filename", s("a.txt")), ("mime_type", s("text/plain"))])).is_none());
    assert!(attach_header(&o(vec![("upload_id", s("upl_1")), ("filename", s("a.txt")), ("mime_type", s("text/plain")), ("size_bytes", s("12"))])).is_none());
    assert!(attach_header(&JsonValue::Array(vec![s("upl_2"), s("b.bin"), s("x")])).is_none());
    assert!(attach_header(&s("header")).is_none());
}

#[test]
fn trim_removes_unicode_white_space_at_both_ends() {
    assert_eq!(wmtp_server::text::trim("  a b \t\n"), "a b");
    assert_eq!(wmtp_server::text::trim("\u{3000}\u{a0}x\u{2029}"), "x");
    assert_eq!(wmtp_server::text::trim(" \u{85} "), "");
    assert_eq!(wmtp_server::text::trim(""), "");
    assert_eq!(wmtp_server::text::trim("\u{200b}y"), "\u{200b}y");
    assert_eq!(wmtp_server::text::trim("é ü"), "é ü");
}
