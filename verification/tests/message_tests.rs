use wmtp_server::comm::{Reply, Request, Response};
use wmtp_server::commands::bulk_cmds::{msg_bulk_action_reply, plan_msg_bulk_action, BulkOp};
use wmtp_server::commands::compose_cmds::{
    delivered_count, inbox_copies, msg_send_draft_reply, msg_send_reply, plan_msg_send, plan_msg_send_draft,
};
use wmtp_server::commands::message_cmds::{
    msg_copy_reply, msg_delete_reply, msg_expunge_reply, msg_flag_clear_reply, msg_flag_set_reply, msg_get_reply,
    msg_move_reply, msg_thread_reply, plan_msg_copy, plan_msg_delete, plan_msg_expunge, plan_msg_flag_clear,
    plan_msg_flag_set, plan_msg_get, plan_msg_move, plan_msg_thread,
};
use wmtp_server::json::{JsonNumber, JsonValue};
use wmtp_server::mailbox::{inbox_message, AttachmentMeta, Message};
use wmtp_server::oid::Oid;
use wmtp_server::session::{create_session_store, SessionStore, WmtpSession};

const ID: &str = "000102030405060708090a0b";

fn s(x: &str) -> JsonValue {
    JsonValue::Str(x.to_string())
}

fn n(x: u64) -> JsonValue {
    JsonValue::Number(JsonNumber::PosInt(x))
}

fn a(items: Vec<JsonValue>) -> JsonValue {
    JsonValue::Array(items)
}

fn o(members: Vec<(&str, JsonValue)>) -> JsonValue {
    JsonValue::Object(members.into_iter().map(|(k, v)| (k.to_string(), v)).collect())
}

fn req(cmd: &str, data: JsonValue) -> Request {
    Request { cmd: cmd.to_string(), data }
}

fn oid_from_hex(hex: &str) -> Oid {
    let mut bytes = [0u8; 12];
    for (i, b) in bytes.iter_mut().enumerate() {
        *b = u8::from_str_radix(&hex[2 * i..2 * i + 2], 16).unwrap();
    }
    Oid { bytes }
}

fn user() -> Oid {
    oid_from_hex("65a1b2c3d4e5f60718293a4b")
}

fn other_id() -> Oid {
    oid_from_hex("aaaaaaaaaaaaaaaaaaaaaaaa")
}

fn sessions() -> SessionStore {
    let mut st = create_session_store();
    st.insert(WmtpSession { token: "good".to_string(), email: Some("me@x.io".to_string()), authenticated: true, suspended: false, user_id: Some(user()) });
    st.insert(WmtpSession { token: "anon".to_string(), email: None, authenticated: false, suspended: false, user_id: None });
    st.insert(WmtpSession { token: "half".to_string(), email: Some("h@x.io".to_string()), authenticated: false, suspended: false, user_id: Some(user()) });
    st.insert(WmtpSession { token: "noemail".to_string(), email: Some(String::new()), authenticated: true, suspended: false, user_id: Some(user()) });
    st
}

fn assert_err(r: &Response, cmd: &str, msg: &str) {
    assert_eq!(r.cmd, cmd);
    assert_eq!(r.status, "ERR");
    assert_eq!(r.msg.as_deref(), Some(msg));
}

fn field<'a>(v: &'a JsonValue, k: &str) -> &'a JsonValue {
    v.get(k).unwrap_or_else(|| panic!("missing member {}", k))
}

fn text_of<'a>(v: &'a JsonValue, k: &str) -> &'a str {
    field(v, k).as_str().unwrap()
}

fn sample_message(body: &str) -> Message {
    let mut m = inbox_message(other_id(), user(), "boss@x.io", vec!["me@x.io".to_string()], "Meeting", body, 1_698_400_800_000);
    m.attachments.push(AttachmentMeta {
        id: "upl_1".to_string(),
        filename: "a.pdf".to_string(),
        mime_type: "application/pdf".to_string(),
        size_bytes: 7,
        gridfs_id: "attach:upl_1".to_string(),
    });
    m
}

#[test]
fn message_commands_check_the_session_first() {
    let st = sessions();
    let d = o(vec![("id", s(ID))]);
    assert_err(&plan_msg_get(&req("MSG_GET", d.copy()), &st, "").err().unwrap(), "MSG_GET", "Missing session token");
    assert_err(&plan_msg_get(&req("MSG_GET", d.copy()), &st, "zzz").err().unwrap(), "MSG_GET", "Invalid or expired session");
    assert_err(&plan_msg_get(&req("MSG_GET", d.copy()), &st, "anon").err().unwrap(), "MSG_GET", "User not authenticated");
    assert_err(&plan_msg_get(&req("MSG_GET", d.copy()), &st, "half").err().unwrap(), "MSG_GET", "User not authenticated");
    let t = plan_msg_get(&req("MSG_GET", d), &st, "good").ok().unwrap();
    assert_eq!(t.user_id.bytes, user().bytes);
    assert_eq!(t.message.text, ID);
    assert_eq!(t.message.id.bytes, [0u8, 1, 2, 3, 4, 5, 6, 7, 8, 9, 10, 11]);
}

#[test]
fn message_id_must_be_present_and_well_formed() {
    let st = sessions();
    let e = plan_msg_delete(&req("MSG_DELETE", o(vec![])), &st, "good").err().unwrap();
    assert_err(&e, "MSG_DELETE", "Missing 'id'");
    let e = plan_msg_delete(&req("MSG_DELETE", o(vec![("id", s(""))])), &st, "good").err().unwrap();
    assert_err(&e, "MSG_DELETE", "Missing 'id'");
    let e = plan_msg_delete(&req("MSG_DELETE", o(vec![("id", n(5))])), &st, "good").err().unwrap();
    assert_err(&e, "MSG_DELETE", "Missing 'id'");
    let e = plan_msg_expunge(&req("MSG_EXPUNGE", o(vec![("id", s("xyz"))])), &st, "good").err().unwrap();
    assert_err(&e, "MSG_EXPUNGE", "Invalid 'id' format");
    let e = plan_msg_expunge(&req("MSG_EXPUNGE", o(vec![("id", s("000102030405060708090a0g"))])), &st, "good").err().unwrap();
    assert_err(&e, "MSG_EXPUNGE", "Invalid 'id' format");
    let t = plan_msg_expunge(&req("MSG_EXPUNGE", o(vec![("id", s("000102030405060708090A0B"))])), &st, "good").ok().unwrap();
    assert_eq!(t.message.id.bytes[11], 11);
}

#[test]
fn msg_get_answers_a_document_with_the_message() {
    let m = sample_message("Hello there");
    let r = msg_get_reply(Ok(Some(m)));
    let doc = match r {
        Reply::Doc(d) => d,
        Reply::Std(_) => panic!("expected a document"),
    };
    assert_eq!(text_of(&doc, "cmd"), "MSG_GET");
    assert_eq!(text_of(&doc, "status"), "OK");
    assert_eq!(text_of(&doc, "msg"), "Message");
    let msg = field(&doc, "message");
    assert_eq!(text_of(msg, "id"), "aaaaaaaaaaaaaaaaaaaaaaaa");
    assert_eq!(text_of(msg, "folder_code"), "INBOX");
    assert_eq!(text_of(msg, "from"), "boss@x.io");
    assert_eq!(field(msg, "to").as_array().unwrap()[0].as_str(), Some("me@x.io"));
    assert_eq!(text_of(msg, "subject"), "Meeting");
    assert_eq!(text_of(msg, "snippet"), "Hello there");
    assert_eq!(text_of(msg, "body"), "Hello there");
    assert_eq!(text_of(msg, "received_at"), "2023-10-27T10:00:00+00:00");
    assert_eq!(field(msg, "unread").as_bool(), Some(true));
    let att = &field(msg, "attachments").as_array().unwrap()[0];
    assert_eq!(text_of(att, "gridfs_id"), "attach:upl_1");
    assert_eq!(field(att, "size_bytes").as_u64(), Some(7));
}

#[test]
fn msg_get_errors() {
    match msg_get_reply(Ok(None)) {
        Reply::Std(r) => assert_err(&r, "MSG_GET", "Message not found"),
        Reply::Doc(_) => panic!(),
    }
    match msg_get_reply(Err(())) {
        Reply::Std(r) => assert_err(&r, "MSG_GET", "Database error"),
        Reply::Doc(_) => panic!(),
    }
}

#[test]
fn msg_move_upper_cases_the_target() {
    let st = sessions();
    let e = plan_msg_move(&req("MSG_MOVE", o(vec![("id", s(ID))])), &st, "good").err().unwrap();
    assert_err(&e, "MSG_MOVE", "Missing 'target_folder'");
    let e = plan_msg_move(&req("MSG_MOVE", o(vec![("id", s(ID)), ("target_folder", s(""))])), &st, "good").err().unwrap();
    assert_err(&e, "MSG_MOVE", "Missing 'target_folder'");
    let t = plan_msg_move(&req("MSG_MOVE", o(vec![("id", s(ID)), ("target_folder", s("archive"))])), &st, "good").ok().unwrap();
    assert_eq!(t.target, "ARCHIVE");
    let r = msg_move_reply(ID, &t.target, Ok(Some("INBOX".to_string())));
    assert_eq!(r.cmd, "MSG_MOVE");
    assert_eq!(r.status, "OK");
    assert_eq!(r.msg.as_deref(), Some("Message moved"));
    let d = r.data.unwrap();
    assert_eq!(text_of(&d, "id"), ID);
    assert_eq!(text_of(&d, "from_folder"), "INBOX");
    assert_eq!(text_of(&d, "to_folder"), "ARCHIVE");
    assert_err(&msg_move_reply(ID, "X", Ok(None)), "MSG_MOVE", "Message not found");
    assert_err(&msg_move_reply(ID, "X", Err(())), "MSG_MOVE", "Database error");
}

#[test]
fn msg_copy_reports_both_ids() {
    let st = sessions();
    let t = plan_msg_copy(&req("MSG_COPY", o(vec![("id", s(ID)), ("target_folder", s("Work"))])), &st, "good").ok().unwrap();
    assert_eq!(t.target, "WORK");
    let r = msg_copy_reply(ID, &t.target, Ok(Some(("INBOX".to_string(), other_id()))));
    assert_eq!(r.msg.as_deref(), Some("Message copied"));
    let d = r.data.unwrap();
    assert_eq!(text_of(&d, "source_id"), ID);
    assert_eq!(text_of(&d, "source_folder"), "INBOX");
    assert_eq!(text_of(&d, "new_id"), "aaaaaaaaaaaaaaaaaaaaaaaa");
    assert_eq!(text_of(&d, "target_folder"), "WORK");
    assert_err(&msg_copy_reply(ID, "X", Ok(None)), "MSG_COPY", "Message not found");
    assert_err(&msg_copy_reply(ID, "X", Err(())), "MSG_COPY", "Database error");
}

#[test]
fn msg_delete_moves_to_bin() {
    let r = msg_delete_reply(ID, Ok(Some("SENT".to_string())));
    assert_eq!(r.msg.as_deref(), Some("Message moved to Bin"));
    let d = r.data.unwrap();
    assert_eq!(text_of(&d, "from_folder"), "SENT");
    assert_eq!(text_of(&d, "to_folder"), "BIN");
    assert_err(&msg_delete_reply(ID, Ok(None)), "MSG_DELETE", "Message not found");
    assert_err(&msg_delete_reply(ID, Err(())), "MSG_DELETE", "Database error");
}

#[test]
fn msg_expunge_needs_a_deletion() {
    let r = msg_expunge_reply(ID, Ok(1));
    assert_eq!(r.msg.as_deref(), Some("Message permanently deleted"));
    assert_eq!(text_of(&r.data.unwrap(), "id"), ID);
    assert_err(&msg_expunge_reply(ID, Ok(0)), "MSG_EXPUNGE", "Message not found");
    assert_err(&msg_expunge_reply(ID, Err(())), "MSG_EXPUNGE", "Database error");
}

#[test]
fn msg_flag_set_inverts_read_into_unread() {
    let st = sessions();
    let e = plan_msg_flag_set(&req("MSG_FLAG_SET", o(vec![("id", s(ID))])), &st, "good").err().unwrap();
    assert_err(&e, "MSG_FLAG_SET", "No flags provided");
    let t = plan_msg_flag_set(&req("MSG_FLAG_SET", o(vec![("id", s(ID)), ("read", JsonValue::Bool(true)), ("starred", JsonValue::Bool(false))])), &st, "good")
        .ok()
        .unwrap();
    assert_eq!(t.update.unread, Some(false));
    assert_eq!(t.update.starred, Some(false));
    assert_eq!(t.update.important, None);
    let r = msg_flag_set_reply(&t, Ok(1));
    assert_eq!(r.msg.as_deref(), Some("Flags updated"));
    let d = r.data.unwrap();
    let flags = field(&d, "flags");
    assert_eq!(field(flags, "read").as_bool(), Some(true));
    assert_eq!(field(flags, "starred").as_bool(), Some(false));
    assert!(field(flags, "important").is_null());
    assert_err(&msg_flag_set_reply(&t, Ok(0)), "MSG_FLAG_SET", "Message not found");
    assert_err(&msg_flag_set_reply(&t, Err(())), "MSG_FLAG_SET", "Database error");
}

#[test]
fn msg_flag_clear_only_clears() {
    let st = sessions();
    let e = plan_msg_flag_clear(&req("MSG_FLAG_CLEAR", o(vec![("id", s(ID)), ("read", JsonValue::Bool(false))])), &st, "good").err().unwrap();
    assert_err(&e, "MSG_FLAG_CLEAR", "No flags specified to clear");
    let t = plan_msg_flag_clear(&req("MSG_FLAG_CLEAR", o(vec![("id", s(ID)), ("read", JsonValue::Bool(true)), ("important", JsonValue::Bool(true))])), &st, "good")
        .ok()
        .unwrap();
    assert_eq!(t.read, Some(false));
    assert_eq!(t.starred, None);
    assert_eq!(t.important, Some(false));
    assert_eq!(t.update.unread, Some(true));
    let r = msg_flag_clear_reply(&t, Ok(1));
    assert_eq!(r.msg.as_deref(), Some("Flags cleared"));
}

#[test]
fn msg_thread_needs_an_authenticated_session() {
    let st = sessions();
    let e = plan_msg_thread(&req("MSG_THREAD", o(vec![])), &st, "").err().unwrap();
    assert_err(&e, "MSG_THREAD", "Missing session token");
    let e = plan_msg_thread(&req("MSG_THREAD", o(vec![])), &st, "anon").err().unwrap();
    assert_err(&e, "MSG_THREAD", "Invalid session or not authenticated");
    let e = plan_msg_thread(&req("MSG_THREAD", o(vec![])), &st, "half").err().unwrap();
    assert_err(&e, "MSG_THREAD", "User not authenticated");
    let e = plan_msg_thread(&req("MSG_THREAD", o(vec![])), &st, "good").err().unwrap();
    assert_err(&e, "MSG_THREAD", "Message ID is required");
    let t = plan_msg_thread(&req("MSG_THREAD", o(vec![("msg_id", s("bad"))])), &st, "good").ok().unwrap();
    assert!(t.lookup.is_none());
    let t = plan_msg_thread(&req("MSG_THREAD", o(vec![("msg_id", s(ID))])), &st, "good").ok().unwrap();
    assert_eq!(t.lookup.unwrap().bytes[1], 1);
    let r = msg_thread_reply(ID, Some(o(vec![("subject", s("x"))])));
    assert_eq!(r.cmd, "MSG_THREAD_OK");
    let d = r.data.unwrap();
    assert_eq!(text_of(&d, "thread_id"), ID);
    assert_eq!(field(&d, "messages").as_array().unwrap().len(), 1);
    assert_err(&msg_thread_reply(ID, None), "MSG_THREAD", "Message not found");
}

#[test]
fn msg_send_checks_sender_and_recipients() {
    let st = sessions();
    let e = plan_msg_send(&req("MSG_SEND", o(vec![("to", a(vec![s("a@b.c")]))])), &st, "noemail").err().unwrap();
    assert_err(&e, "MSG_SEND", "Session email missing");
    let e = plan_msg_send(&req("MSG_SEND", o(vec![("to", s("a@b.c"))])), &st, "good").err().unwrap();
    assert_err(&e, "MSG_SEND", "Missing or invalid 'to' array");
    let e = plan_msg_send(&req("MSG_SEND", o(vec![])), &st, "good").err().unwrap();
    assert_err(&e, "MSG_SEND", "Missing or invalid 'to' array");
    let e = plan_msg_send(&req("MSG_SEND", o(vec![("to", a(vec![s(""), n(3)]))])), &st, "good").err().unwrap();
    assert_err(&e, "MSG_SEND", "Empty 'to' list");
}

#[test]
fn msg_send_scenario() {
    let st = sessions();
    let data = o(vec![
        ("session_token", s("good")),
        ("to", a(vec![s("Recipient@Example.com"), s(""), s("b@c.d")])),
        ("subject", s("Hello World")),
        ("body", s("This is the message body.")),
        ("attachment_ids", a(vec![s("upl_1"), n(2)])),
    ]);
    let t = plan_msg_send(&req("MSG_SEND", data), &st, "good").ok().unwrap();
    assert_eq!(t.from, "me@x.io");
    assert_eq!(t.to, vec!["Recipient@Example.com".to_string(), "b@c.d".to_string()]);
    assert_eq!(t.recipients, vec!["recipient@example.com".to_string(), "b@c.d".to_string()]);
    assert_eq!(t.subject, "Hello World");
    assert_eq!(t.body, "This is the message body.");
    assert_eq!(t.attachment_ids, vec!["upl_1".to_string()]);
    let r = msg_send_reply(&t, Ok(other_id()), 1);
    assert_eq!(r.cmd, "MSG_SEND");
    assert_eq!(r.status, "OK");
    assert_eq!(r.msg.as_deref(), Some("Message stored in Sent"));
    let d = r.data.unwrap();
    assert_eq!(text_of(&d, "id"), "aaaaaaaaaaaaaaaaaaaaaaaa");
    assert_eq!(text_of(&d, "folder_code"), "SENT");
    assert_eq!(text_of(&d, "from"), "me@x.io");
    assert_eq!(field(&d, "to").as_array().unwrap().len(), 2);
    assert_eq!(text_of(&d, "subject"), "Hello World");
    assert_eq!(field(&d, "delivered").as_u64(), Some(1));
    assert_err(&msg_send_reply(&t, Err(()), 0), "MSG_SEND", "Database error");
}

#[test]
fn drafts_may_have_no_recipients() {
    let st = sessions();
    let t = plan_msg_send_draft(&req("MSG_SEND_DRAFT", o(vec![])), &st, "good").ok().unwrap();
    assert!(t.to.is_empty());
    assert_eq!(t.subject, "");
    assert_eq!(t.body, "");
    let r = msg_send_draft_reply(&t, Ok(other_id()));
    assert_eq!(r.msg.as_deref(), Some("Draft stored in Drafts"));
    let d = r.data.unwrap();
    assert_eq!(text_of(&d, "folder_code"), "DRAFTS");
    assert!(d.get("delivered").is_none());
    assert_err(&msg_send_draft_reply(&t, Err(())), "MSG_SEND_DRAFT", "Database error");
    let e = plan_msg_send_draft(&req("MSG_SEND_DRAFT", o(vec![])), &st, "").err().unwrap();
    assert_err(&e, "MSG_SEND_DRAFT", "Missing session token");
}

#[test]
fn bulk_action_validation_order() {
    let st = sessions();
    let e = plan_msg_bulk_action(&req("MSG_BULK_ACTION", o(vec![])), &st, "good").err().unwrap();
    assert_err(&e, "MSG_BULK_ACTION", "Missing 'action'");
    let e = plan_msg_bulk_action(&req("MSG_BULK_ACTION", o(vec![("action", s("nuke"))])), &st, "good").err().unwrap();
    assert_err(&e, "MSG_BULK_ACTION", "Missing or invalid 'ids'");
    let e = plan_msg_bulk_action(&req("MSG_BULK_ACTION", o(vec![("action", s("nuke")), ("ids", a(vec![s("bad")]))])), &st, "good").err().unwrap();
    assert_err(&e, "MSG_BULK_ACTION", "No valid ids provided");
    let e = plan_msg_bulk_action(&req("MSG_BULK_ACTION", o(vec![("action", s("nuke")), ("ids", a(vec![s(ID)]))])), &st, "good").err().unwrap();
    assert_err(&e, "MSG_BULK_ACTION", "Unsupported action");
    let e = plan_msg_bulk_action(&req("MSG_BULK_ACTION", o(vec![("action", s("move")), ("ids", a(vec![s(ID)]))])), &st, "good").err().unwrap();
    assert_err(&e, "MSG_BULK_ACTION", "Missing 'target_folder'");
    let e = plan_msg_bulk_action(&req("MSG_BULK_ACTION", o(vec![("action", s("flag_set")), ("ids", a(vec![s(ID)]))])), &st, "good").err().unwrap();
    assert_err(&e, "MSG_BULK_ACTION", "No flags provided");
}

#[test]
fn bulk_action_keeps_only_valid_ids() {
    let st = sessions();
    let data = o(vec![("action", s("move")), ("ids", a(vec![s(ID), s("nope"), n(1), s("aaaaaaaaaaaaaaaaaaaaaaaa")])), ("target_folder", s("spam"))]);
    let t = plan_msg_bulk_action(&req("MSG_BULK_ACTION", data), &st, "good").ok().unwrap();
    assert_eq!(t.action, "MOVE");
    assert_eq!(t.ids.len(), 2);
    assert_eq!(t.ids[1].bytes, other_id().bytes);
    match &t.op {
        BulkOp::Move(f) => assert_eq!(f, "SPAM"),
        _ => panic!("expected a move"),
    }
    let r = msg_bulk_action_reply(&t, Ok(2));
    assert_eq!(r.msg.as_deref(), Some("Bulk action applied"));
    let d = r.data.unwrap();
    assert_eq!(text_of(&d, "action"), "MOVE");
    assert_eq!(field(&d, "total_ids").as_u64(), Some(2));
    assert_eq!(field(&d, "affected").as_u64(), Some(2));
    assert_err(&msg_bulk_action_reply(&t, Err(())), "MSG_BULK_ACTION", "Database error");
}

#[test]
fn bulk_flag_clear_sets_named_flags_false() {
    let st = sessions();
    let data = o(vec![
        ("action", s("FLAG_CLEAR")),
        ("ids", a(vec![s(ID)])),
        ("flags", o(vec![("read", JsonValue::Bool(false)), ("starred", JsonValue::Bool(true))])),
    ]);
    let t = plan_msg_bulk_action(&req("MSG_BULK_ACTION", data), &st, "good").ok().unwrap();
    match &t.op {
        BulkOp::Flags(u) => {
            assert_eq!(u.unread, Some(true));
            assert_eq!(u.starred, Some(false));
            assert_eq!(u.important, None);
        },
        _ => panic!("expected flags"),
    }
    let data = o(vec![("action", s("delete")), ("ids", a(vec![s(ID)]))]);
    let t = plan_msg_bulk_action(&req("MSG_BULK_ACTION", data), &st, "good").ok().unwrap();
    assert!(matches!(t.op, BulkOp::Delete));
    let data = o(vec![("action", s("Expunge")), ("ids", a(vec![s(ID)]))]);
    let t = plan_msg_bulk_action(&req("MSG_BULK_ACTION", data), &st, "good").ok().unwrap();
    assert!(matches!(t.op, BulkOp::Expunge));
}

#[test]
fn msg_send_delivers_one_inbox_copy_per_known_recipient() {
    let st = sessions();
    let data = o(vec![("to", a(vec![s("a@b.c"), s("nobody@b.c"), s("d@e.f")])), ("subject", s("Hi")), ("body", s("Body"))]);
    let t = plan_msg_send(&req("MSG_SEND", data), &st, "good").ok().unwrap();
    let owners = vec![Some(other_id()), None, Some(user())];
    let ids = vec![oid_from_hex("000000000000000000000001"), oid_from_hex("000000000000000000000002"), oid_from_hex("000000000000000000000003")];
    let copies = inbox_copies(&t, &owners, &ids, 7_000);
    assert_eq!(copies.len(), 3);
    let first = copies[0].as_ref().unwrap();
    assert_eq!(first.id.bytes, ids[0].bytes);
    assert_eq!(first.user_id.bytes, other_id().bytes);
    assert_eq!(first.folder_code, "INBOX");
    assert_eq!(first.from, "me@x.io");
    assert_eq!(first.to, vec!["a@b.c".to_string(), "nobody@b.c".to_string(), "d@e.f".to_string()]);
    assert_eq!(first.subject, "Hi");
    assert_eq!(first.body.as_deref(), Some("Body"));
    assert_eq!(first.received_at, 7_000);
    assert!(first.unread);
    assert!(first.attachments.is_empty());
    assert!(copies[1].is_none());
    assert_eq!(copies[2].as_ref().unwrap().user_id.bytes, user().bytes);
    assert_eq!(delivered_count(&vec![true, false, true]), 2);
    assert_eq!(delivered_count(&vec![]), 0);
    assert_eq!(delivered_count(&vec![false, false]), 0);
}
