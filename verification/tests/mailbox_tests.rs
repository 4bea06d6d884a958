use wmtp_server::comm::{Reply, Request, Response};
use wmtp_server::commands::mailbox_cmds::{
    mb_create_reply, mb_delete_reply, mb_info_reply, mb_list_reply, mb_purge_trash_reply, mb_rename_reply, plan_mb_create,
    plan_mb_delete, plan_mb_info, plan_mb_list, plan_mb_purge_trash, plan_mb_rename,
};
use wmtp_server::commands::query_cmds::{
    msg_list_reply, plan_msg_list, plan_search, plan_search_adv, plan_search_global, search_adv_reply, search_global_reply,
    search_reply,
};
use wmtp_server::json::{JsonNumber, JsonValue};
use wmtp_server::mailbox::{
    copy_message, default_folders, draft_message, flag_update, folder_info, global_folder, inbox_message, list_paging,
    mb_list_entry, search_paging, sent_message, user_folder, visible_folders, AttachmentMeta, MbListFolderDto, Message,
};
use wmtp_server::timefmt::fits_calendar;
use wmtp_server::oid::Oid;
use wmtp_server::session::{create_session_store, SessionStore, WmtpSession};

fn s(x: &str) -> JsonValue {
    JsonValue::Str(x.to_string())
}

fn n(x: u64) -> JsonValue {
    JsonValue::Number(JsonNumber::PosInt(x))
}

fn o(members: Vec<(&str, JsonValue)>) -> JsonValue {
    JsonValue::Object(members.into_iter().map(|(k, v)| (k.to_string(), v)).collect())
}

fn req(cmd: &str, data: JsonValue) -> Request {
    Request { cmd: cmd.to_string(), data }
}

fn oid_from_hex(hex: &str) -> Oid {
    let mut bytes = [0u8; 12];
    for (i, b) in bytes.iter_mut().enumerate() {
        *b = u8::from_str_radix(&hex[2 * i..2 * i + 2], 16).unwrap();
    }
    Oid { bytes }
}

fn user() -> Oid {
    oid_from_hex("65a1b2c3d4e5f60718293a4b")
}

fn mid(last: u8) -> Oid {
    let mut b = [0u8; 12];
    b[11] = last;
    Oid { bytes: b }
}

fn sessions() -> SessionStore {
    let mut st = create_session_store();
    st.insert(WmtpSession { token: "good".to_string(), email: Some("me@x.io".to_string()), authenticated: true, suspended: false, user_id: Some(user()) });
    st.insert(WmtpSession { token: "half".to_string(), email: None, authenticated: false, suspended: false, user_id: Some(user()) });
    st.insert(WmtpSession { token: "anon".to_string(), email: None, authenticated: false, suspended: false, user_id: None });
    st
}

fn assert_err(r: &Response, cmd: &str, msg: &str) {
    assert_eq!(r.cmd, cmd);
    assert_eq!(r.status, "ERR");
    assert_eq!(r.msg.as_deref(), Some(msg));
}

fn field<'a>(v: &'a JsonValue, k: &str) -> &'a JsonValue {
    v.get(k).unwrap_or_else(|| panic!("missing member {}", k))
}

fn text_of<'a>(v: &'a JsonValue, k: &str) -> &'a str {
    field(v, k).as_str().unwrap()
}

fn doc(r: Reply) -> JsonValue {
    match r {
        Reply::Doc(d) => d,
        Reply::Std(x) => panic!("expected a document, got {:?}", x.msg),
    }
}

fn std_reply(r: Reply) -> Response {
    match r {
        Reply::Std(x) => x,
        Reply::Doc(_) => panic!("expected an envelope"),
    }
}

#[test]
fn snippet_is_the_first_hundred_characters() {
    let body: String = "é".repeat(150);
    let m = inbox_message(mid(1), user(), "a@b.c", vec!["me@x.io".to_string()], "S", &body, 5);
    assert_eq!(m.snippet.as_ref().unwrap().chars().count(), 100);
    assert_eq!(m.body.as_deref(), Some(body.as_str()));
    assert_eq!(m.folder_code, "INBOX");
    assert!(m.unread);
    assert!(!m.starred && !m.important);
    assert!(m.attachments.is_empty());
    assert_eq!(m.received_at, 5);
    let short = inbox_message(mid(1), user(), "a@b.c", vec![], "S", "hi", 5);
    assert_eq!(short.snippet.as_deref(), Some("hi"));
}

#[test]
fn sent_and_draft_messages_are_read() {
    let att = vec![AttachmentMeta { id: "u".to_string(), filename: "f".to_string(), mime_type: "m".to_string(), size_bytes: 1, gridfs_id: "attach:u".to_string() }];
    let m = sent_message(mid(2), user(), "me@x.io", vec!["a@b.c".to_string()], "S", "B", 9, att);
    assert_eq!(m.folder_code, "SENT");
    assert!(!m.unread);
    assert_eq!(m.attachments.len(), 1);
    let d = draft_message(mid(3), user(), "me@x.io", vec![], "S", "B", 9, vec![]);
    assert_eq!(d.folder_code, "DRAFTS");
    assert!(!d.unread);
}

#[test]
fn a_copy_differs_only_in_id_and_folder() {
    let mut src = inbox_message(mid(1), user(), "a@b.c", vec!["x@y.z".to_string()], "S", "body", 77);
    src.starred = true;
    let c = copy_message(&src, mid(9), "WORK");
    assert_eq!(c.id.bytes, mid(9).bytes);
    assert_eq!(c.folder_code, "WORK");
    assert_eq!(c.user_id.bytes, src.user_id.bytes);
    assert_eq!(c.from, src.from);
    assert_eq!(c.to, src.to);
    assert_eq!(c.subject, src.subject);
    assert_eq!(c.snippet, src.snippet);
    assert_eq!(c.body, src.body);
    assert_eq!(c.received_at, 77);
    assert_eq!(c.unread, src.unread);
    assert!(c.starred);
}

#[test]
fn default_folders_in_order() {
    let f = default_folders();
    let codes: Vec<&str> = f.iter().map(|p| p.0.as_str()).collect();
    let names: Vec<&str> = f.iter().map(|p| p.1.as_str()).collect();
    assert_eq!(codes, vec!["INBOX", "SENT", "DRAFTS", "BIN", "SPAM"]);
    assert_eq!(names, vec!["Inbox", "Sent", "Drafts", "Bin", "Spam"]);
    let g = global_folder(mid(1), "INBOX", "Inbox");
    assert!(g.user_id.is_none() && g.created_at.is_none());
    let u = user_folder(mid(2), user(), "WORK", "Work", 12);
    assert_eq!(u.user_id.unwrap().bytes, user().bytes);
    assert_eq!(u.created_at, Some(12));
}

#[test]
fn paging_defaults_when_out_of_range() {
    let p = list_paging(5, 10);
    assert_eq!((p.skip, p.limit), (5, 10));
    let p = list_paging(u64::MAX, u64::MAX);
    assert_eq!((p.skip, p.limit), (0, 20));
    let p = search_paging(u64::MAX, u64::MAX);
    assert_eq!((p.skip, p.limit), (u64::MAX, 50));
}

#[test]
fn flag_update_stores_unread() {
    let u = flag_update(Some(true), None, Some(false));
    assert_eq!(u.unread, Some(false));
    assert_eq!(u.starred, None);
    assert_eq!(u.important, Some(false));
    assert!(!u.is_empty());
    assert!(flag_update(None, None, None).is_empty());
}

#[test]
fn folder_info_with_and_without_messages() {
    let m = inbox_message(mid(1), user(), "a@b.c", vec![], "Latest", "b", 1_500);
    let i = folder_info(global_folder(mid(1), "INBOX", "Inbox"), 2, 3, Some(m));
    assert_eq!(i.code, "INBOX");
    assert_eq!((i.unread, i.total), (2, 3));
    assert_eq!(i.latest_subject.as_deref(), Some("Latest"));
    assert_eq!(i.latest_from.as_deref(), Some("a@b.c"));
    assert_eq!(i.latest_received_at.as_deref(), Some("1970-01-01T00:00:01.500+00:00"));
    let e = folder_info(global_folder(mid(1), "BIN", "Bin"), 0, 0, None);
    assert!(e.latest_subject.is_none() && e.latest_from.is_none() && e.latest_received_at.is_none());
}

#[test]
fn mb_create_derives_the_code_from_the_name() {
    let st = sessions();
    let e = plan_mb_create(&req("MB_CREATE", o(vec![("name", s("Work Projects"))])), &st, "half").err().unwrap();
    assert_err(&e, "MB_CREATE", "User not authenticated");
    let t = plan_mb_create(&req("MB_CREATE", o(vec![("name", s("Work Projects"))])), &st, "good").ok().unwrap();
    assert_eq!(t.code, "WORK_PROJECTS");
    assert_eq!(t.name, "Work Projects");
    let r = mb_create_reply(&t, Ok(mid(5)));
    assert_eq!(r.cmd, "MB_CREATE");
    assert_eq!(r.msg.as_deref(), Some("Folder created successfully"));
    let d = r.data.unwrap();
    assert_eq!(text_of(&d, "code"), "WORK_PROJECTS");
    assert_eq!(text_of(&d, "name"), "Work Projects");
    assert_eq!(text_of(&d, "id"), "000000000000000000000005");
    assert_err(&mb_create_reply(&t, Err(())), "MB_CREATE", "Database error creating folder");
}

#[test]
fn mb_create_scenario_with_code() {
    let st = sessions();
    let data = o(vec![("session_token", s("good")), ("code", s("WORK")), ("name", s("Work Projects"))]);
    let t = plan_mb_create(&req("MB_CREATE", data), &st, "good").ok().unwrap();
    assert_eq!(t.code, "WORK");
}

#[test]
fn mb_create_errors() {
    let st = sessions();
    let e = plan_mb_create(&req("MB_CREATE", o(vec![("name", s("x"))])), &st, "").err().unwrap();
    assert_err(&e, "MB_CREATE", "Invalid or expired session");
    let e = plan_mb_create(&req("MB_CREATE", o(vec![("name", s("x"))])), &st, "anon").err().unwrap();
    assert_err(&e, "MB_CREATE", "User not authenticated");
    let e = plan_mb_create(&req("MB_CREATE", JsonValue::Null), &st, "good").err().unwrap();
    assert_err(&e, "MB_CREATE", "Missing data field");
    let e = plan_mb_create(&req("MB_CREATE", o(vec![("name", n(3))])), &st, "good").err().unwrap();
    assert_err(&e, "MB_CREATE", "Missing or invalid 'name' field");
    let e = plan_mb_create(&req("MB_CREATE", o(vec![("name", s("X"))])), &st, "good").err().unwrap();
    assert_err(&e, "MB_CREATE", "Code must be 2-20 characters");
    let e = plan_mb_create(&req("MB_CREATE", o(vec![("name", s("a")), ("code", s("ABCDEFGHIJKLMNOPQRSTU"))])), &st, "good").err().unwrap();
    assert_err(&e, "MB_CREATE", "Code must be 2-20 characters");
    let e = plan_mb_create(&req("MB_CREATE", o(vec![("name", s("")), ("code", s("AB"))])), &st, "good").err().unwrap();
    assert_err(&e, "MB_CREATE", "Name must be 1-50 characters");
    let long = "n".repeat(51);
    let e = plan_mb_create(&req("MB_CREATE", o(vec![("name", s(&long)), ("code", s("AB"))])), &st, "good").err().unwrap();
    assert_err(&e, "MB_CREATE", "Name must be 1-50 characters");
    let e = plan_mb_create(&req("MB_CREATE", o(vec![("name", s("Numbers")), ("code", s("1234"))])), &st, "good").err().unwrap();
    assert_err(&e, "MB_CREATE", "Code must contain letters");
    let e = plan_mb_create(&req("MB_CREATE", o(vec![("name", s("Junk")), ("code", s("spam"))])), &st, "good").err().unwrap();
    assert_err(&e, "MB_CREATE", "Reserved folder code");
    let e = plan_mb_create(&req("MB_CREATE", o(vec![("name", s("inbox"))])), &st, "good").err().unwrap();
    assert_err(&e, "MB_CREATE", "Reserved folder code");
}

#[test]
fn mb_list_scenario() {
    let st = sessions();
    assert_err(&plan_mb_list(&st, "half").err().unwrap(), "MB_LIST", "User not authenticated");
    assert_err(&plan_mb_list(&st, "").err().unwrap(), "MB_LIST", "Invalid or expired session");
    assert_eq!(plan_mb_list(&st, "good").ok().unwrap().bytes, user().bytes);
    let rows: Vec<MbListFolderDto> = vec![
        mb_list_entry(global_folder(mid(1), "INBOX", "Inbox"), 2, 5),
        mb_list_entry(global_folder(mid(2), "SENT", "Sent"), 0, 10),
    ];
    let d = doc(mb_list_reply(Ok(rows)));
    assert_eq!(text_of(&d, "cmd"), "MB_LIST");
    assert_eq!(text_of(&d, "status"), "OK");
    assert_eq!(text_of(&d, "msg"), "Mailbox folders");
    let folders = field(&d, "folders").as_array().unwrap();
    assert_eq!(text_of(&folders[0], "code"), "INBOX");
    assert_eq!(field(&folders[0], "unread").as_u64(), Some(2));
    assert_eq!(field(&folders[0], "total").as_u64(), Some(5));
    assert_eq!(field(&folders[1], "total").as_u64(), Some(10));
    assert_err(&std_reply(mb_list_reply(Err(()))), "MB_LIST", "Database error");
}

#[test]
fn mb_info_falls_back_to_mailbox() {
    let st = sessions();
    let (_, c) = plan_mb_info(&req("MB_INFO", o(vec![("mailbox", s("SENT"))])), &st, "good").ok().unwrap();
    assert_eq!(c, "SENT");
    let (_, c) = plan_mb_info(&req("MB_INFO", o(vec![("folder_code", s("INBOX")), ("mailbox", s("SENT"))])), &st, "good").ok().unwrap();
    assert_eq!(c, "INBOX");
    let e = plan_mb_info(&req("MB_INFO", o(vec![("folder_code", n(1)), ("mailbox", s("SENT"))])), &st, "good").err().unwrap();
    assert_err(&e, "MB_INFO", "Missing folder_code");
    let e = plan_mb_info(&req("MB_INFO", o(vec![])), &st, "good").err().unwrap();
    assert_err(&e, "MB_INFO", "Missing folder_code");
    let info = folder_info(global_folder(mid(1), "INBOX", "Inbox"), 1, 1, None);
    let d = doc(mb_info_reply(Ok(info)));
    assert_eq!(text_of(&d, "msg"), "Folder info");
    let f = field(&d, "folder");
    assert_eq!(text_of(f, "name"), "Inbox");
    assert!(field(f, "latest_subject").is_null());
    assert_err(&std_reply(mb_info_reply(Err(()))), "MB_INFO", "Database error");
}

#[test]
fn mb_purge_trash_reads_session_token_only() {
    let st = sessions();
    let e = plan_mb_purge_trash(&req("MB_PURGE_TRASH", o(vec![("token", s("good"))])), &st).err().unwrap();
    assert_err(&e, "MB_PURGE_TRASH", "Missing session_token");
    let u = plan_mb_purge_trash(&req("MB_PURGE_TRASH", o(vec![("session_token", s("good"))])), &st).ok().unwrap();
    assert_eq!(u.bytes, user().bytes);
    let r = mb_purge_trash_reply(Ok(4));
    assert_eq!(r.msg.as_deref(), Some("Trash emptied"));
    assert_eq!(field(&r.data.unwrap(), "deleted").as_u64(), Some(4));
    assert_err(&mb_purge_trash_reply(Err(())), "MB_PURGE_TRASH", "Database error");
}

#[test]
fn mb_rename_and_delete() {
    let st = sessions();
    let e = plan_mb_rename(&req("MB_RENAME", o(vec![])), &st, "anon").err().unwrap();
    assert_err(&e, "MB_RENAME", "Invalid session or not authenticated");
    let e = plan_mb_rename(&req("MB_RENAME", o(vec![("folder", s("WORK")), ("new_name", s("Job"))])), &st, "half").err().unwrap();
    assert_err(&e, "MB_RENAME", "User not authenticated");
    let e = plan_mb_delete(&req("MB_DELETE", o(vec![("folder", s("WORK"))])), &st, "half").err().unwrap();
    assert_err(&e, "MB_DELETE", "User not authenticated");
    let e = plan_mb_rename(&req("MB_RENAME", o(vec![])), &st, "good").err().unwrap();
    assert_err(&e, "MB_RENAME", "Folder code is required");
    let e = plan_mb_rename(&req("MB_RENAME", o(vec![("folder", s("WORK"))])), &st, "good").err().unwrap();
    assert_err(&e, "MB_RENAME", "New name is required");
    let (_, f, nn) = plan_mb_rename(&req("MB_RENAME", o(vec![("folder", s("WORK")), ("new_name", s("Job"))])), &st, "good").ok().unwrap();
    assert_eq!((f.as_str(), nn.as_str()), ("WORK", "Job"));
    let r = mb_rename_reply(Ok(1));
    assert_eq!(r.cmd, "MB_RENAME_OK");
    assert_eq!(r.msg.as_deref(), Some("Folder renamed successfully"));
    assert_err(&mb_rename_reply(Ok(0)), "MB_RENAME", "Folder not found or no change");
    assert_err(&mb_rename_reply(Err("boom".to_string())), "MB_RENAME", "Database error: boom");
    let e = plan_mb_delete(&req("MB_DELETE", o(vec![])), &st, "good").err().unwrap();
    assert_err(&e, "MB_DELETE", "Folder code is required");
    let r = mb_delete_reply(Ok(1));
    assert_eq!(r.cmd, "MB_DELETE_OK");
    assert_eq!(r.msg.as_deref(), Some("Folder deleted successfully"));
    assert_err(&mb_delete_reply(Ok(0)), "MB_DELETE", "Folder not found");
}

fn listing() -> Vec<Message> {
    let mut m = inbox_message(mid(7), user(), "sender@example.com", vec!["user@example.com".to_string()], "Meeting", "Hi, are we still on for...", 1_698_400_800_000);
    m.starred = true;
    vec![m]
}

#[test]
fn msg_list_scenario() {
    let st = sessions();
    let data = o(vec![("session_token", s("good")), ("folder_code", s("INBOX")), ("offset", n(0)), ("limit", n(20))]);
    let t = plan_msg_list(&req("MSG_LIST", data), &st, "good").ok().unwrap();
    assert_eq!(t.filter.folder_code.as_deref(), Some("INBOX"));
    assert_eq!((t.paging.skip, t.paging.limit), (0, 20));
    let d = doc(msg_list_reply(&t, Ok(listing())));
    assert_eq!(text_of(&d, "cmd"), "MSG_LIST");
    assert_eq!(text_of(&d, "msg"), "Messages");
    assert_eq!(text_of(&d, "folder_code"), "INBOX");
    assert_eq!(field(&d, "offset").as_u64(), Some(0));
    assert_eq!(field(&d, "limit").as_u64(), Some(20));
    let item = &field(&d, "messages").as_array().unwrap()[0];
    assert_eq!(text_of(item, "id"), "000000000000000000000007");
    assert_eq!(text_of(item, "snippet"), "Hi, are we still on for...");
    assert_eq!(text_of(item, "received_at"), "2023-10-27T10:00:00+00:00");
    assert_eq!(field(item, "unread").as_bool(), Some(true));
    assert!(item.get("starred").is_none());
    assert!(item.get("folder_code").is_none());
    assert_err(&std_reply(msg_list_reply(&t, Err(()))), "MSG_LIST", "Database error");
}

#[test]
fn msg_list_defaults_and_errors() {
    let st = sessions();
    let t = plan_msg_list(&req("MSG_LIST", o(vec![("folder_code", s("SENT"))])), &st, "good").ok().unwrap();
    assert_eq!((t.offset, t.limit), (0, 20));
    let e = plan_msg_list(&req("MSG_LIST", o(vec![("folder_code", s(""))])), &st, "good").err().unwrap();
    assert_err(&e, "MSG_LIST", "Missing folder_code");
}

#[test]
fn search_scenario() {
    let st = sessions();
    let data = o(vec![("folder_code", s("INBOX")), ("q", s("meeting")), ("from", s("boss@example.com")), ("offset", n(0)), ("limit", n(50))]);
    let t = plan_search(&req("SEARCH", data), &st, "good").ok().unwrap();
    assert_eq!(t.filter.text_pattern.as_deref(), Some("meeting"));
    assert_eq!(t.filter.from.as_deref(), Some("boss@example.com"));
    assert_eq!(t.paging.limit, 50);
    let d = doc(search_reply(&t, Ok(listing())));
    assert_eq!(text_of(&d, "cmd"), "SEARCH");
    assert_eq!(text_of(&d, "msg"), "Search results");
    assert_eq!(text_of(&d, "folder_code"), "INBOX");
    let item = &field(&d, "messages").as_array().unwrap()[0];
    assert_eq!(field(item, "starred").as_bool(), Some(true));
    assert_eq!(field(item, "important").as_bool(), Some(false));
    let e = plan_search(&req("SEARCH", o(vec![])), &st, "good").err().unwrap();
    assert_err(&e, "SEARCH", "Missing folder_code");
}

#[test]
fn empty_search_texts_are_ignored() {
    let st = sessions();
    let t = plan_search_global(&req("SEARCH_GLOBAL", o(vec![("q", s("")), ("from", s(""))])), &st, "good").ok().unwrap();
    assert!(t.filter.text_pattern.is_none() && t.filter.from.is_none() && t.filter.folder_code.is_none());
    assert_eq!((t.offset, t.limit), (0, 50));
    let d = doc(search_global_reply(&t, Ok(listing())));
    assert_eq!(text_of(&d, "msg"), "Global search results");
    assert!(d.get("folder_code").is_none());
    let item = &field(&d, "messages").as_array().unwrap()[0];
    assert_eq!(text_of(item, "folder_code"), "INBOX");
}

#[test]
fn advanced_search_reads_every_criterion() {
    let st = sessions();
    let data = o(vec![
        ("folder_code", s("")),
        ("to", s("user@")),
        ("unread", JsonValue::Bool(true)),
        ("date_from", s("2023-10-27T10:00:00Z")),
        ("date_to", s("not a date")),
        ("limit", n(5)),
    ]);
    let t = plan_search_adv(&req("SEARCH_ADV", data), &st, "good").ok().unwrap();
    assert!(t.filter.folder_code.is_none());
    assert_eq!(t.filter.to_pattern.as_deref(), Some("user@"));
    assert_eq!(t.filter.unread, Some(true));
    assert_eq!(t.filter.starred, None);
    assert_eq!(t.filter.received_from, Some(1_698_400_800_000));
    assert_eq!(t.filter.received_to, None);
    assert_eq!((t.paging.skip, t.paging.limit), (0, 5));
    let d = doc(search_adv_reply(&t, Ok(vec![])));
    assert_eq!(text_of(&d, "cmd"), "SEARCH_ADV");
    assert_eq!(text_of(&d, "msg"), "Advanced search results");
    assert!(field(&d, "messages").as_array().unwrap().is_empty());
    let e = plan_search_adv(&req("SEARCH_ADV", o(vec![])), &st, "half").err().unwrap();
    assert_err(&e, "SEARCH_ADV", "User not authenticated");
}

#[test]
fn mb_list_shows_shared_folders_and_the_users_own() {
    let other = oid_from_hex("aaaaaaaaaaaaaaaaaaaaaaaa");
    let folders = vec![
        global_folder(mid(1), "INBOX", "Inbox"),
        user_folder(mid(2), other, "THEIRS", "Theirs", 5),
        user_folder(mid(3), user(), "MINE", "Mine", 6),
        global_folder(mid(4), "SENT", "Sent"),
    ];
    let seen: Vec<String> = visible_folders(&folders, user()).into_iter().map(|f| f.code).collect();
    assert_eq!(seen, vec!["INBOX".to_string(), "MINE".to_string(), "SENT".to_string()]);
    let theirs: Vec<String> = visible_folders(&folders, other).into_iter().map(|f| f.code).collect();
    assert_eq!(theirs, vec!["INBOX".to_string(), "THEIRS".to_string(), "SENT".to_string()]);
}

#[test]
fn calendar_range_edges() {
    assert!(fits_calendar(0));
    assert!(fits_calendar(8_210_266_876_799_999));
    assert!(!fits_calendar(8_210_266_876_800_000));
    assert!(fits_calendar(-8_334_601_228_800_000));
    assert!(!fits_calendar(-8_334_601_228_800_001));
    assert!(!fits_calendar(i64::MAX));
    assert!(!fits_calendar(i64::MIN));
}

#[test]
fn folder_info_at_the_calendar_edges() {
    let late = inbox_message(mid(1), user(), "a@b.c", vec![], "Late", "b", 8_210_266_876_799_999);
    let i = folder_info(global_folder(mid(1), "INBOX", "Inbox"), 1, 1, Some(late));
    assert_eq!(i.latest_received_at.as_deref(), Some("+262142-12-31T23:59:59.999+00:00"));
    let early = inbox_message(mid(1), user(), "a@b.c", vec![], "Early", "b", -8_334_601_228_800_000);
    let i = folder_info(global_folder(mid(1), "INBOX", "Inbox"), 1, 1, Some(early));
    assert_eq!(i.latest_received_at.as_deref(), Some("-262143-01-01T00:00:00+00:00"));
}
