//! Commands on one stored message: MSG_GET, MSG_MOVE, MSG_COPY, MSG_DELETE,
//! MSG_EXPUNGE, MSG_FLAG_SET, MSG_FLAG_CLEAR and MSG_THREAD.
//!
//! Each command is checked first (`plan_*`: the session, then the request's
//! members), then the store is asked, then the answer is written from what the
//! store reported (`*_reply`).
use vstd::prelude::*;
use crate::comm::{Reply, ReplyView, Request, Response, ResponseView};
use crate::commands::gate::{lenient_gate, require_session, require_user, token_gate};
use crate::commands::views::{message_doc, message_doc_json};
use crate::json::{Json, JsonValue, arr, get_bool, get_str, member, obj, opt_bool, bool_field, jopt_bool, str_field, text};
use crate::mailbox::{FlagUpdate, Message, flag_update, negated};
use crate::oid::{Oid, is_oid_text, oid_of_text, oid_hex, oid_to_hex, parse_oid};
use crate::session::{SessionStore, SessionView};
use crate::text::{to_upper, unicode_upper};
use crate::timefmt::in_calendar_range;

verus! {

/// The message a request names: its `id` member, which must be the text of
/// an object id.
pub open spec fn id_outcome(cmd: Seq<char>, data: Json) -> Result<Seq<char>, ResponseView> {
    match str_field(data, "id"@) {
        Some(s) => if s.len() == 0 {
            Err(ResponseView::err(cmd, "Missing 'id'"@))
        } else if !is_oid_text(s) {
            Err(ResponseView::err(cmd, "Invalid 'id' format"@))
        } else {
            Ok(s)
        },
        None => Err(ResponseView::err(cmd, "Missing 'id'"@)),
    }
}

/// A message id as the request wrote it, and the id it denotes.
pub struct MessageRef {
    pub text: String,
    pub id: Oid,
}

/// Whether `r` is the id that the text `s` writes.
pub open spec fn denotes(r: MessageRef, s: Seq<char>) -> bool {
    r.text@ == s && oid_of_text(s, r.id.bytes@)
}

/// Reads the `id` member as [`id_outcome`] says.
pub fn message_ref(cmd: &str, data: &JsonValue) -> (r: Result<MessageRef, Response>)
    ensures
        match (r, id_outcome(cmd@, data@)) {
            (Ok(m), Ok(s)) => denotes(m, s),
            (Err(e), Err(v)) => e@ == v,
            _ => false,
        },
{
    let text = match get_str(data, "id") {
        Some(s) => {
            if s.is_empty() {
                return Err(Response::err(cmd, "Missing 'id'"));
            }
            s
        },
        None => return Err(Response::err(cmd, "Missing 'id'")),
    };
    match parse_oid(text) {
        Some(id) => Ok(MessageRef { text: text.to_owned(), id }),
        None => Err(Response::err(cmd, "Invalid 'id' format")),
    }
}

/// The folder a request moves or copies to: its `target_folder` member, not
/// empty, in upper case.
pub open spec fn target_outcome(cmd: Seq<char>, data: Json) -> Result<Seq<char>, ResponseView> {
    match str_field(data, "target_folder"@) {
        Some(s) => if s.len() > 0 { Ok(unicode_upper(s)) } else { Err(ResponseView::err(cmd, "Missing 'target_folder'"@)) },
        None => Err(ResponseView::err(cmd, "Missing 'target_folder'"@)),
    }
}

/// Reads the `target_folder` member as [`target_outcome`] says.
pub fn target_folder(cmd: &str, data: &JsonValue) -> (r: Result<String, Response>)
    ensures
        match (r, target_outcome(cmd@, data@)) {
            (Ok(t), Ok(s)) => t@ == s,
            (Err(e), Err(v)) => e@ == v,
            _ => false,
        },
{
    match get_str(data, "target_folder") {
        Some(s) => if !s.is_empty() { Ok(to_upper(s)) } else { Err(Response::err(cmd, "Missing 'target_folder'")) },
        None => Err(Response::err(cmd, "Missing 'target_folder'")),
    }
}

/// A checked request on one message of a signed-in user.
pub struct MessageTask {
    pub user_id: Oid,
    pub message: MessageRef,
}

/// A session, then a message id.
pub open spec fn task_outcome(cmd: Seq<char>, data: Json, store: Map<Seq<char>, SessionView>, token: Seq<char>) -> Result<(SessionView, Seq<char>), ResponseView> {
    match token_gate(cmd, store, token) {
        Err(e) => Err(e),
        Ok(s) => match id_outcome(cmd, data) {
            Err(e) => Err(e),
            Ok(id) => Ok((s, id)),
        },
    }
}

/// Whether a checked request matches its model.
pub open spec fn task_matches(r: Result<MessageTask, Response>, m: Result<(SessionView, Seq<char>), ResponseView>) -> bool {
    match (r, m) {
        (Ok(t), Ok((s, id))) => s.user_id == Some(t.user_id.bytes@) && denotes(t.message, id),
        (Err(e), Err(v)) => e@ == v,
        _ => false,
    }
}

/// Checks a request on one message as [`task_outcome`] says.
pub fn plan_message_task(cmd: &str, req: &Request, sessions: &SessionStore, token: &str) -> (r: Result<MessageTask, Response>)
    ensures
        task_matches(r, task_outcome(cmd@, req.data@, sessions@, token@)),
{
    let user = match require_session(cmd, sessions, token) {
        Ok(u) => u,
        Err(e) => return Err(e),
    };
    match message_ref(cmd, &req.data) {
        Ok(m) => Ok(MessageTask { user_id: user.user_id, message: m }),
        Err(e) => Err(e),
    }
}

/// `MSG_GET`: checks the request.
pub fn plan_msg_get(req: &Request, sessions: &SessionStore, token: &str) -> (r: Result<MessageTask, Response>)
    ensures
        task_matches(r, task_outcome("MSG_GET"@, req.data@, sessions@, token@)),
{
    plan_message_task("MSG_GET", req, sessions, token)
}

/// The answer to `MSG_GET` once the store looked the message up: a document
/// of its own that carries the message.
pub open spec fn get_reply_view(found: Result<Option<Message>, ()>) -> ReplyView {
    match found {
        Err(_) => ReplyView::Std(ResponseView::err("MSG_GET"@, "Database error"@)),
        Ok(None) => ReplyView::Std(ResponseView::err("MSG_GET"@, "Message not found"@)),
        Ok(Some(m)) => ReplyView::Doc(
            Json::Object(
                seq![
                    ("cmd"@, Json::Str("MSG_GET"@)),
                    ("status"@, Json::Str("OK"@)),
                    ("msg"@, Json::Str("Message"@)),
                    ("message"@, message_doc_json(m@)),
                ],
            ),
        ),
    }
}

/// `MSG_GET`: the answer, given what the store found.
pub fn msg_get_reply(found: Result<Option<Message>, ()>) -> (r: Reply)
    requires
        found matches Ok(Some(m)) ==> in_calendar_range(m.received_at),
    ensures
        r@ == get_reply_view(found),
{
    match found {
        Err(_) => Reply::Std(Response::err("MSG_GET", "Database error")),
        Ok(None) => Reply::Std(Response::err("MSG_GET", "Message not found")),
        Ok(Some(m)) => {
            let message = message_doc(&m);
            let doc = obj(vec![member("cmd", text("MSG_GET")), member("status", text("OK")), member("msg", text("Message")), member("message", message)]);
            proof {
                assert(doc@->Object_0 =~= seq![
                    ("cmd"@, Json::Str("MSG_GET"@)),
                    ("status"@, Json::Str("OK"@)),
                    ("msg"@, Json::Str("Message"@)),
                    ("message"@, message_doc_json(m@)),
                ]);
            }
            Reply::Doc(doc)
        },
    }
}

/// A checked move or copy: the message and the folder it goes to.
pub struct TransferTask {
    pub user_id: Oid,
    pub message: MessageRef,
    pub target: String,
}

/// A session, then a message id, then a target folder.
pub open spec fn transfer_outcome(cmd: Seq<char>, data: Json, store: Map<Seq<char>, SessionView>, token: Seq<char>) -> Result<(SessionView, Seq<char>, Seq<char>), ResponseView> {
    match task_outcome(cmd, data, store, token) {
        Err(e) => Err(e),
        Ok((s, id)) => match target_outcome(cmd, data) {
            Err(e) => Err(e),
            Ok(t) => Ok((s, id, t)),
        },
    }
}

/// Whether a checked move or copy matches its model.
pub open spec fn transfer_matches(r: Result<TransferTask, Response>, m: Result<(SessionView, Seq<char>, Seq<char>), ResponseView>) -> bool {
    match (r, m) {
        (Ok(t), Ok((s, id, target))) => s.user_id == Some(t.user_id.bytes@) && denotes(t.message, id) && t.target@ == target,
        (Err(e), Err(v)) => e@ == v,
        _ => false,
    }
}

fn plan_transfer(cmd: &str, req: &Request, sessions: &SessionStore, token: &str) -> (r: Result<TransferTask, Response>)
    ensures
        transfer_matches(r, transfer_outcome(cmd@, req.data@, sessions@, token@)),
{
    let task = match plan_message_task(cmd, req, sessions, token) {
        Ok(t) => t,
        Err(e) => return Err(e),
    };
    match target_folder(cmd, &req.data) {
        Ok(target) => Ok(TransferTask { user_id: task.user_id, message: task.message, target }),
        Err(e) => Err(e),
    }
}

/// `MSG_MOVE`: checks the request.
pub fn plan_msg_move(req: &Request, sessions: &SessionStore, token: &str) -> (r: Result<TransferTask, Response>)
    ensures
        transfer_matches(r, transfer_outcome("MSG_MOVE"@, req.data@, sessions@, token@)),
{
    plan_transfer("MSG_MOVE", req, sessions, token)
}

/// The answer to `MSG_MOVE`, given the folder the message left (`None` when
/// the user has no such message).
pub open spec fn move_reply_view(id: Seq<char>, target: Seq<char>, moved: Result<Option<Seq<char>>, ()>) -> ResponseView {
    match moved {
        Err(_) => ResponseView::err("MSG_MOVE"@, "Database error"@),
        Ok(None) => ResponseView::err("MSG_MOVE"@, "Message not found"@),
        Ok(Some(from)) => ResponseView::ok("MSG_MOVE"@).with_msg("Message moved"@).with_data(
            Json::Object(seq![("id"@, Json::Str(id)), ("from_folder"@, Json::Str(from)), ("to_folder"@, Json::Str(target))]),
        ),
    }
}

/// The characters of an optional string inside a store outcome.
pub open spec fn outcome_str(o: Result<Option<String>, ()>) -> Result<Option<Seq<char>>, ()> {
    match o {
        Ok(Some(s)) => Ok(Some(s@)),
        Ok(None) => Ok(None),
        Err(_) => Err(()),
    }
}

/// `MSG_MOVE`: the answer, given what the store reported.
pub fn msg_move_reply(id: &str, target: &str, moved: Result<Option<String>, ()>) -> (r: Response)
    ensures
        r@ == move_reply_view(id@, target@, outcome_str(moved)),
{
    match moved {
        Err(_) => Response::err("MSG_MOVE", "Database error"),
        Ok(None) => Response::err("MSG_MOVE", "Message not found"),
        Ok(Some(from)) => {
            let data = obj(vec![member("id", text(id)), member("from_folder", JsonValue::Str(from)), member("to_folder", text(target))]);
            proof {
                assert(data@->Object_0 =~= seq![("id"@, Json::Str(id@)), ("from_folder"@, Json::Str(from@)), ("to_folder"@, Json::Str(target@))]);
            }
            Response::ok("MSG_MOVE").with_msg("Message moved").with_data(data)
        },
    }
}

/// `MSG_COPY`: checks the request.
pub fn plan_msg_copy(req: &Request, sessions: &SessionStore, token: &str) -> (r: Result<TransferTask, Response>)
    ensures
        transfer_matches(r, transfer_outcome("MSG_COPY"@, req.data@, sessions@, token@)),
{
    plan_transfer("MSG_COPY", req, sessions, token)
}

/// The answer to `MSG_COPY`, given the source's folder and the copy's id.
pub open spec fn copy_reply_view(id: Seq<char>, target: Seq<char>, copied: Result<Option<(Seq<char>, Seq<u8>)>, ()>) -> ResponseView {
    match copied {
        Err(_) => ResponseView::err("MSG_COPY"@, "Database error"@),
        Ok(None) => ResponseView::err("MSG_COPY"@, "Message not found"@),
        Ok(Some((source_folder, new_id))) => ResponseView::ok("MSG_COPY"@).with_msg("Message copied"@).with_data(
            Json::Object(
                seq![
                    ("source_id"@, Json::Str(id)),
                    ("source_folder"@, Json::Str(source_folder)),
                    ("new_id"@, Json::Str(oid_hex(new_id))),
                    ("target_folder"@, Json::Str(target)),
                ],
            ),
        ),
    }
}

/// The model of what the store reports of a copy.
pub open spec fn copied_view(o: Result<Option<(String, Oid)>, ()>) -> Result<Option<(Seq<char>, Seq<u8>)>, ()> {
    match o {
        Ok(Some((f, id))) => Ok(Some((f@, id.bytes@))),
        Ok(None) => Ok(None),
        Err(_) => Err(()),
    }
}

/// `MSG_COPY`: the answer, given what the store reported.
pub fn msg_copy_reply(id: &str, target: &str, copied: Result<Option<(String, Oid)>, ()>) -> (r: Response)
    ensures
        r@ == copy_reply_view(id@, target@, copied_view(copied)),
{
    match copied {
        Err(_) => Response::err("MSG_COPY", "Database error"),
        Ok(None) => Response::err("MSG_COPY", "Message not found"),
        Ok(Some((source_folder, new_id))) => {
            let new_hex = oid_to_hex(&new_id);
            let data = obj(
                vec![
                    member("source_id", text(id)),
                    member("source_folder", JsonValue::Str(source_folder)),
                    member("new_id", JsonValue::Str(new_hex)),
                    member("target_folder", text(target)),
                ],
            );
            proof {
                assert(data@->Object_0 =~= seq![
                    ("source_id"@, Json::Str(id@)),
                    ("source_folder"@, Json::Str(source_folder@)),
                    ("new_id"@, Json::Str(oid_hex(new_id.bytes@))),
                    ("target_folder"@, Json::Str(target@)),
                ]);
            }
            Response::ok("MSG_COPY").with_msg("Message copied").with_data(data)
        },
    }
}

/// `MSG_DELETE`: checks the request.
pub fn plan_msg_delete(req: &Request, sessions: &SessionStore, token: &str) -> (r: Result<MessageTask, Response>)
    ensures
        task_matches(r, task_outcome("MSG_DELETE"@, req.data@, sessions@, token@)),
{
    plan_message_task("MSG_DELETE", req, sessions, token)
}

/// The answer to `MSG_DELETE`, given the folder the message left for BIN.
pub open spec fn delete_reply_view(id: Seq<char>, moved: Result<Option<Seq<char>>, ()>) -> ResponseView {
    match moved {
        Err(_) => ResponseView::err("MSG_DELETE"@, "Database error"@),
        Ok(None) => ResponseView::err("MSG_DELETE"@, "Message not found"@),
        Ok(Some(from)) => ResponseView::ok("MSG_DELETE"@).with_msg("Message moved to Bin"@).with_data(
            Json::Object(seq![("id"@, Json::Str(id)), ("from_folder"@, Json::Str(from)), ("to_folder"@, Json::Str("BIN"@))]),
        ),
    }
}

/// `MSG_DELETE`: the answer, given what the store reported.
pub fn msg_delete_reply(id: &str, moved: Result<Option<String>, ()>) -> (r: Response)
    ensures
        r@ == delete_reply_view(id@, outcome_str(moved)),
{
    match moved {
        Err(_) => Response::err("MSG_DELETE", "Database error"),
        Ok(None) => Response::err("MSG_DELETE", "Message not found"),
        Ok(Some(from)) => {
            let data = obj(vec![member("id", text(id)), member("from_folder", JsonValue::Str(from)), member("to_folder", text("BIN"))]);
            proof {
                assert(data@->Object_0 =~= seq![("id"@, Json::Str(id@)), ("from_folder"@, Json::Str(from@)), ("to_folder"@, Json::Str("BIN"@))]);
            }
            Response::ok("MSG_DELETE").with_msg("Message moved to Bin").with_data(data)
        },
    }
}

/// `MSG_EXPUNGE`: checks the request.
pub fn plan_msg_expunge(req: &Request, sessions: &SessionStore, token: &str) -> (r: Result<MessageTask, Response>)
    ensures
        task_matches(r, task_outcome("MSG_EXPUNGE"@, req.data@, sessions@, token@)),
{
    plan_message_task("MSG_EXPUNGE", req, sessions, token)
}

/// The answer to `MSG_EXPUNGE`, given how many messages the store deleted.
pub open spec fn expunge_reply_view(id: Seq<char>, deleted: Result<u64, ()>) -> ResponseView {
    match deleted {
        Err(_) => ResponseView::err("MSG_EXPUNGE"@, "Database error"@),
        Ok(n) => if n == 0 {
            ResponseView::err("MSG_EXPUNGE"@, "Message not found"@)
        } else {
            ResponseView::ok("MSG_EXPUNGE"@).with_msg("Message permanently deleted"@).with_data(Json::Object(seq![("id"@, Json::Str(id))]))
        },
    }
}

/// `MSG_EXPUNGE`: the answer, given what the store reported.
pub fn msg_expunge_reply(id: &str, deleted: Result<u64, ()>) -> (r: Response)
    ensures
        r@ == expunge_reply_view(id@, deleted),
{
    match deleted {
        Err(_) => Response::err("MSG_EXPUNGE", "Database error"),
        Ok(n) => {
            if n == 0 {
                return Response::err("MSG_EXPUNGE", "Message not found");
            }
            let data = obj(vec![member("id", text(id))]);
            proof {
                assert(data@->Object_0 =~= seq![("id"@, Json::Str(id@))]);
            }
            Response::ok("MSG_EXPUNGE").with_msg("Message permanently deleted").with_data(data)
        },
    }
}

/// A checked flag change: the message, the flags as the request names them
/// (`read`, `starred`, `important`), and the update the store applies.
pub struct FlagTask {
    pub user_id: Oid,
    pub message: MessageRef,
    pub read: Option<bool>,
    pub starred: Option<bool>,
    pub important: Option<bool>,
    pub update: FlagUpdate,
}

/// The flags a `MSG_FLAG_SET` request sets; at least one must be given.
pub open spec fn flag_set_outcome(data: Json, store: Map<Seq<char>, SessionView>, token: Seq<char>) -> Result<(SessionView, Seq<char>, Option<bool>, Option<bool>, Option<bool>), ResponseView> {
    match task_outcome("MSG_FLAG_SET"@, data, store, token) {
        Err(e) => Err(e),
        Ok((s, id)) => {
            let read = bool_field(data, "read"@);
            let starred = bool_field(data, "starred"@);
            let important = bool_field(data, "important"@);
            if read is None && starred is None && important is None {
                Err(ResponseView::err("MSG_FLAG_SET"@, "No flags provided"@))
            } else {
                Ok((s, id, read, starred, important))
            }
        },
    }
}

/// Whether a checked flag change matches its model.
pub open spec fn flag_task_matches(r: Result<FlagTask, Response>, m: Result<(SessionView, Seq<char>, Option<bool>, Option<bool>, Option<bool>), ResponseView>) -> bool {
    match (r, m) {
        (Ok(t), Ok((s, id, read, starred, important))) => s.user_id == Some(t.user_id.bytes@) && denotes(t.message, id)
            && t.read == read && t.starred == starred && t.important == important
            && t.update.unread == negated(read) && t.update.starred == starred && t.update.important == important,
        (Err(e), Err(v)) => e@ == v,
        _ => false,
    }
}

/// `MSG_FLAG_SET`: checks the request and states the update.
pub fn plan_msg_flag_set(req: &Request, sessions: &SessionStore, token: &str) -> (r: Result<FlagTask, Response>)
    ensures
        flag_task_matches(r, flag_set_outcome(req.data@, sessions@, token@)),
{
    let task = match plan_message_task("MSG_FLAG_SET", req, sessions, token) {
        Ok(t) => t,
        Err(e) => return Err(e),
    };
    let read = get_bool(&req.data, "read");
    let starred = get_bool(&req.data, "starred");
    let important = get_bool(&req.data, "important");
    if read.is_none() && starred.is_none() && important.is_none() {
        return Err(Response::err("MSG_FLAG_SET", "No flags provided"));
    }
    Ok(FlagTask { user_id: task.user_id, message: task.message, read, starred, important, update: flag_update(read, starred, important) })
}

/// A flag that a `MSG_FLAG_CLEAR` request asks to clear: one given as `true`.
pub open spec fn clears(data: Json, key: Seq<char>) -> Option<bool> {
    if bool_field(data, key) == Some(true) { Some(false) } else { None }
}

/// The flags a `MSG_FLAG_CLEAR` request clears; at least one must be `true`.
pub open spec fn flag_clear_outcome(data: Json, store: Map<Seq<char>, SessionView>, token: Seq<char>) -> Result<(SessionView, Seq<char>, Option<bool>, Option<bool>, Option<bool>), ResponseView> {
    match task_outcome("MSG_FLAG_CLEAR"@, data, store, token) {
        Err(e) => Err(e),
        Ok((s, id)) => {
            let read = clears(data, "read"@);
            let starred = clears(data, "starred"@);
            let important = clears(data, "important"@);
            if read is None && starred is None && important is None {
                Err(ResponseView::err("MSG_FLAG_CLEAR"@, "No flags specified to clear"@))
            } else {
                Ok((s, id, read, starred, important))
            }
        },
    }
}

fn clear_flag(data: &JsonValue, key: &str) -> (r: Option<bool>)
    ensures
        r == clears(data@, key@),
{
    match get_bool(data, key) {
        Some(true) => Some(false),
        _ => None,
    }
}

/// `MSG_FLAG_CLEAR`: checks the request and states the update.
pub fn plan_msg_flag_clear(req: &Request, sessions: &SessionStore, token: &str) -> (r: Result<FlagTask, Response>)
    ensures
        flag_task_matches(r, flag_clear_outcome(req.data@, sessions@, token@)),
{
    let task = match plan_message_task("MSG_FLAG_CLEAR", req, sessions, token) {
        Ok(t) => t,
        Err(e) => return Err(e),
    };
    let read = clear_flag(&req.data, "read");
    let starred = clear_flag(&req.data, "starred");
    let important = clear_flag(&req.data, "important");
    if read.is_none() && starred.is_none() && important.is_none() {
        return Err(Response::err("MSG_FLAG_CLEAR", "No flags specified to clear"));
    }
    Ok(FlagTask { user_id: task.user_id, message: task.message, read, starred, important, update: flag_update(read, starred, important) })
}

/// The answer to a flag change, given how many messages the store modified.
pub open spec fn flag_reply_view(cmd: Seq<char>, done_msg: Seq<char>, id: Seq<char>, read: Option<bool>, starred: Option<bool>, important: Option<bool>, modified: Result<u64, ()>) -> ResponseView {
    match modified {
        Err(_) => ResponseView::err(cmd, "Database error"@),
        Ok(n) => if n == 0 {
            ResponseView::err(cmd, "Message not found"@)
        } else {
            ResponseView::ok(cmd).with_msg(done_msg).with_data(
                Json::Object(
                    seq![
                        ("id"@, Json::Str(id)),
                        ("flags"@, Json::Object(seq![("read"@, jopt_bool(read)), ("starred"@, jopt_bool(starred)), ("important"@, jopt_bool(important))])),
                    ],
                ),
            )
        },
    }
}

fn flag_reply(cmd: &str, done_msg: &str, task: &FlagTask, modified: Result<u64, ()>) -> (r: Response)
    ensures
        r@ == flag_reply_view(cmd@, done_msg@, task.message.text@, task.read, task.starred, task.important, modified),
{
    match modified {
        Err(_) => Response::err(cmd, "Database error"),
        Ok(n) => {
            if n == 0 {
                return Response::err(cmd, "Message not found");
            }
            let flags = obj(vec![member("read", opt_bool(task.read)), member("starred", opt_bool(task.starred)), member("important", opt_bool(task.important))]);
            let data = obj(vec![member("id", text(task.message.text.as_str())), member("flags", flags)]);
            proof {
                assert(flags@->Object_0 =~= seq![("read"@, jopt_bool(task.read)), ("starred"@, jopt_bool(task.starred)), ("important"@, jopt_bool(task.important))]);
                assert(data@->Object_0 =~= seq![("id"@, Json::Str(task.message.text@)), ("flags"@, flags@)]);
            }
            Response::ok(cmd).with_msg(done_msg).with_data(data)
        },
    }
}

/// `MSG_FLAG_SET`: the answer, given what the store reported.
pub fn msg_flag_set_reply(task: &FlagTask, modified: Result<u64, ()>) -> (r: Response)
    ensures
        r@ == flag_reply_view("MSG_FLAG_SET"@, "Flags updated"@, task.message.text@, task.read, task.starred, task.important, modified),
{
    flag_reply("MSG_FLAG_SET", "Flags updated", task, modified)
}

/// `MSG_FLAG_CLEAR`: the answer, given what the store reported.
pub fn msg_flag_clear_reply(task: &FlagTask, modified: Result<u64, ()>) -> (r: Response)
    ensures
        r@ == flag_reply_view("MSG_FLAG_CLEAR"@, "Flags cleared"@, task.message.text@, task.read, task.starred, task.important, modified),
{
    flag_reply("MSG_FLAG_CLEAR", "Flags cleared", task, modified)
}

/// A checked `MSG_THREAD`: the id text, and the id to look up when the text
/// writes one (otherwise a fresh id, which no message has, is looked up).
pub struct ThreadTask {
    pub user_id: Oid,
    pub msg_id: String,
    pub lookup: Option<Oid>,
}

/// `MSG_THREAD` needs an authenticated session with a user and a `msg_id` string.
pub open spec fn thread_outcome(data: Json, store: Map<Seq<char>, SessionView>, token: Seq<char>) -> Result<(SessionView, Seq<char>), ResponseView> {
    match lenient_gate("MSG_THREAD"@, store, token) {
        Err(e) => Err(e),
        Ok(s) => match str_field(data, "msg_id"@) {
            Some(id) => Ok((s, id)),
            None => Err(ResponseView::err("MSG_THREAD"@, "Message ID is required"@)),
        },
    }
}

/// `MSG_THREAD`: checks the request.
pub fn plan_msg_thread(req: &Request, sessions: &SessionStore, token: &str) -> (r: Result<ThreadTask, Response>)
    ensures
        match (r, thread_outcome(req.data@, sessions@, token@)) {
            (Ok(t), Ok((s, id))) => s.user_id == Some(t.user_id.bytes@) && t.msg_id@ == id
                && (t.lookup is Some <==> is_oid_text(id))
                && (t.lookup matches Some(o) ==> oid_of_text(id, o.bytes@)),
            (Err(e), Err(v)) => e@ == v,
            _ => false,
        },
{
    let user = match require_user("MSG_THREAD", sessions, token) {
        Ok(u) => u,
        Err(e) => return Err(e),
    };
    match get_str(&req.data, "msg_id") {
        Some(id) => Ok(ThreadTask { user_id: user.user_id, msg_id: id.to_owned(), lookup: parse_oid(id) }),
        None => Err(Response::err("MSG_THREAD", "Message ID is required")),
    }
}

/// The answer to `MSG_THREAD`, given the stored document of the message found
/// (`None` when the lookup found nothing or failed).
pub open spec fn thread_reply_view(msg_id: Seq<char>, found: Option<Json>) -> ResponseView {
    match found {
        Some(doc) => ResponseView::ok("MSG_THREAD_OK"@).with_data(
            Json::Object(seq![("thread_id"@, Json::Str(msg_id)), ("messages"@, Json::Array(seq![doc]))]),
        ),
        None => ResponseView::err("MSG_THREAD"@, "Message not found"@),
    }
}

/// `MSG_THREAD`: the answer.
pub fn msg_thread_reply(msg_id: &str, found: Option<JsonValue>) -> (r: Response)
    ensures
        r@ == thread_reply_view(msg_id@, match found { Some(d) => Some(d@), None => None }),
{
    match found {
        Some(doc) => {
            let ghost d = doc@;
            let messages = arr(vec![doc]);
            let data = obj(vec![member("thread_id", text(msg_id)), member("messages", messages)]);
            proof {
                assert(messages@->Array_0 =~= seq![d]);
                assert(data@->Object_0 =~= seq![("thread_id"@, Json::Str(msg_id@)), ("messages"@, Json::Array(seq![d]))]);
            }
            Response::ok("MSG_THREAD_OK").with_data(data)
        },
        None => Response::err("MSG_THREAD", "Message not found"),
    }
}

} // verus!

verus! {

/// Every command on one message refuses a request that carries no session
/// token, whatever else it holds, before looking at anything else.
pub proof fn law_message_commands_need_a_token(cmd: Seq<char>, data: Json, store: Map<Seq<char>, SessionView>)
    ensures
        task_outcome(cmd, data, store, Seq::empty()) == Err::<(SessionView, Seq<char>), ResponseView>(ResponseView::err(cmd, "Missing session token"@)),
        transfer_outcome(cmd, data, store, Seq::empty()) == Err::<(SessionView, Seq<char>, Seq<char>), ResponseView>(ResponseView::err(cmd, "Missing session token"@)),
        flag_set_outcome(data, store, Seq::empty()) is Err,
        flag_clear_outcome(data, store, Seq::empty()) is Err,
{
}

/// A session that has not authenticated cannot act on messages.
pub proof fn law_unauthenticated_sessions_refused(cmd: Seq<char>, data: Json, store: Map<Seq<char>, SessionView>, token: Seq<char>)
    requires
        token.len() > 0,
        store.contains_key(token),
        store[token].user_id is Some,
        !store[token].authenticated,
    ensures
        task_outcome(cmd, data, store, token) == Err::<(SessionView, Seq<char>), ResponseView>(ResponseView::err(cmd, "User not authenticated"@)),
{
}

/// `MSG_FLAG_CLEAR` only ever clears: each flag it names becomes false, and
/// clearing `read` marks the message unread.
pub proof fn law_flag_clear_only_clears(data: Json, store: Map<Seq<char>, SessionView>, token: Seq<char>)
    requires
        flag_clear_outcome(data, store, token) is Ok,
    ensures
        ({
            let (_, _, read, starred, important) = flag_clear_outcome(data, store, token)->Ok_0;
            &&& read is None || read == Some(false)
            &&& starred is None || starred == Some(false)
            &&& important is None || important == Some(false)
            &&& negated(read) is None || negated(read) == Some(true)
        }),
{
}

} // verus!

verus! {

/// A command on a message acts only for the session that asked: the
/// session must exist under the given token, be authenticated and carry a
/// user, and that user is whose message is touched.
pub proof fn law_tasks_belong_to_the_session(cmd: Seq<char>, data: Json, store: Map<Seq<char>, SessionView>, token: Seq<char>)
    requires
        task_outcome(cmd, data, store, token) is Ok,
    ensures
        store.contains_key(token),
        store[token].authenticated,
        store[token].user_id is Some,
        task_outcome(cmd, data, store, token)->Ok_0.0 == store[token],
{
}

} // verus!
