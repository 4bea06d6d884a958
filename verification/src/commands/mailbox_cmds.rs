//! Folder commands: MB_CREATE, MB_LIST, MB_INFO, MB_PURGE_TRASH, MB_RENAME
//! and MB_DELETE.
use vstd::prelude::*;
use crate::comm::{Reply, ReplyView, Request, Response, ResponseView};
use crate::commands::gate::{lenient_gate, require_user, resolve_session, require_session, session_gate, token_gate};
use crate::commands::views::{folder_info_json, folder_info_value, list_row_json, list_rows};
use crate::json::{Json, JsonValue, get_str, jget, juint, member, obj, str_field, text, uint};
use crate::mailbox::{MbFolderInfoDto, MbListFolderDto, is_reserved_code, default_folder_list};
use crate::oid::{Oid, oid_hex, oid_to_hex};
use crate::session::{SessionStore, SessionView};
use crate::text::{concat, replace_spaces, spaces_to_underscores, str_eq, to_lower, to_upper, unicode_lower, unicode_upper};
use crate::token::utf8;

verus! {

/// The folder code a request names when it gives none: its name in upper
/// case with spaces made underscores.
pub open spec fn derived_code(name: Seq<char>) -> Seq<char> {
    spaces_to_underscores(unicode_upper(name))
}

/// `MB_CREATE`: an authenticated session with a user (there is no separate
/// check for a missing token: it names no session); data present; a string `name`; the code given or
/// derived; code 2 to 20 bytes, name 1 to 50 bytes; the code must change
/// under case mapping (hold letters) and must not be a fixed folder's code.
pub open spec fn create_outcome(data: Json, store: Map<Seq<char>, SessionView>, token: Seq<char>) -> Result<(SessionView, Seq<char>, Seq<char>), ResponseView> {
    match session_gate("MB_CREATE"@, store, token, true) {
        Err(e) => Err(e),
        Ok(s) => if data is Null {
            Err(ResponseView::err("MB_CREATE"@, "Missing data field"@))
        } else {
            match jget(data, "name"@) {
                Some(Json::Str(name)) => {
                    let code = match jget(data, "code"@) {
                        Some(Json::Str(c)) => c,
                        _ => derived_code(name),
                    };
                    if utf8(code).len() < 2 || utf8(code).len() > 20 {
                        Err(ResponseView::err("MB_CREATE"@, "Code must be 2-20 characters"@))
                    } else if name.len() == 0 || utf8(name).len() > 50 {
                        Err(ResponseView::err("MB_CREATE"@, "Name must be 1-50 characters"@))
                    } else if unicode_upper(code) == unicode_lower(code) {
                        Err(ResponseView::err("MB_CREATE"@, "Code must contain letters"@))
                    } else if is_reserved_code(unicode_upper(code)) {
                        Err(ResponseView::err("MB_CREATE"@, "Reserved folder code"@))
                    } else {
                        Ok((s, code, name))
                    }
                },
                _ => Err(ResponseView::err("MB_CREATE"@, "Missing or invalid 'name' field"@)),
            }
        },
    }
}

/// A checked `MB_CREATE`: the owner, the code and the name.
pub struct CreateTask {
    pub user_id: Oid,
    pub code: String,
    pub name: String,
}

fn reserved(code: &str) -> (r: bool)
    ensures
        r == is_reserved_code(code@),
{
    let fixed = crate::mailbox::default_folders();
    assert(fixed@.len() == 5) by {
        assert(fixed@.map_values(|p: (String, String)| (p.0@, p.1@)).len() == default_folder_list().len());
    }
    let mut i: usize = 0;
    while i < fixed.len()
        invariant
            i <= fixed@.len(),
            fixed@.len() == 5,
            fixed@.map_values(|p: (String, String)| (p.0@, p.1@)) == default_folder_list(),
            forall|j: int| 0 <= j < i ==> default_folder_list()[j].0 != code@,
        decreases fixed.len() - i,
    {
        assert(fixed@.map_values(|p: (String, String)| (p.0@, p.1@))[i as int].0 == fixed@[i as int].0@);
        if str_eq(fixed[i].0.as_str(), code) {
            return true;
        }
        i += 1;
    }
    false
}

/// `MB_CREATE`: checks the request as [`create_outcome`] says.
pub fn plan_mb_create(req: &Request, sessions: &SessionStore, token: &str) -> (r: Result<CreateTask, Response>)
    ensures
        match (r, create_outcome(req.data@, sessions@, token@)) {
            (Ok(t), Ok((s, code, name))) => s.user_id == Some(t.user_id.bytes@) && t.code@ == code && t.name@ == name,
            (Err(e), Err(v)) => e@ == v,
            _ => false,
        },
{
    let user = match resolve_session("MB_CREATE", sessions, token, true) {
        Ok(u) => u,
        Err(e) => return Err(e),
    };
    let data = &req.data;
    if data.is_null() {
        return Err(Response::err("MB_CREATE", "Missing data field"));
    }
    let name: String = match data.get("name") {
        Some(JsonValue::Str(n)) => n.clone(),
        _ => return Err(Response::err("MB_CREATE", "Missing or invalid 'name' field")),
    };
    let code: String = match data.get("code") {
        Some(JsonValue::Str(c)) => c.clone(),
        _ => replace_spaces(to_upper(name.as_str()).as_str()),
    };
    let code_len = code.as_str().as_bytes().len();
    if code_len < 2 || code_len > 20 {
        return Err(Response::err("MB_CREATE", "Code must be 2-20 characters"));
    }
    if name.as_str().is_empty() || name.as_str().as_bytes().len() > 50 {
        return Err(Response::err("MB_CREATE", "Name must be 1-50 characters"));
    }
    let upper = to_upper(code.as_str());
    if str_eq(upper.as_str(), to_lower(code.as_str()).as_str()) {
        return Err(Response::err("MB_CREATE", "Code must contain letters"));
    }
    if reserved(upper.as_str()) {
        return Err(Response::err("MB_CREATE", "Reserved folder code"));
    }
    Ok(CreateTask { user_id: user.user_id, code, name })
}

/// The answer to `MB_CREATE`, given the new folder's id (an error when the
/// user already has that code or the store failed).
pub open spec fn create_reply_view(code: Seq<char>, name: Seq<char>, created: Result<Seq<u8>, ()>) -> ResponseView {
    match created {
        Err(_) => ResponseView::err("MB_CREATE"@, "Database error creating folder"@),
        Ok(id) => ResponseView::ok("MB_CREATE"@).with_msg("Folder created successfully"@).with_data(
            Json::Object(seq![("code"@, Json::Str(code)), ("name"@, Json::Str(name)), ("id"@, Json::Str(oid_hex(id)))]),
        ),
    }
}

/// `MB_CREATE`: the answer.
pub fn mb_create_reply(task: &CreateTask, created: Result<Oid, ()>) -> (r: Response)
    ensures
        r@ == create_reply_view(task.code@, task.name@, match created { Ok(id) => Ok(id.bytes@), Err(_) => Err(()) }),
{
    match created {
        Err(_) => Response::err("MB_CREATE", "Database error creating folder"),
        Ok(id) => {
            let data = obj(vec![member("code", text(task.code.as_str())), member("name", text(task.name.as_str())), member("id", JsonValue::Str(oid_to_hex(&id)))]);
            proof {
                assert(data@->Object_0 =~= seq![("code"@, Json::Str(task.code@)), ("name"@, Json::Str(task.name@)), ("id"@, Json::Str(oid_hex(id.bytes@)))]);
            }
            Response::ok("MB_CREATE").with_msg("Folder created successfully").with_data(data)
        },
    }
}

/// `MB_LIST`: checks the session (an authenticated one; no token check of its
/// own) and gives the user whose folders are listed.
pub fn plan_mb_list(sessions: &SessionStore, token: &str) -> (r: Result<Oid, Response>)
    ensures
        match (r, session_gate("MB_LIST"@, sessions@, token@, true)) {
            (Ok(u), Ok(s)) => s.user_id == Some(u.bytes@),
            (Err(e), Err(v)) => e@ == v,
            _ => false,
        },
{
    match resolve_session("MB_LIST", sessions, token, true) {
        Ok(u) => Ok(u.user_id),
        Err(e) => Err(e),
    }
}

/// The answer to `MB_LIST`, given the rows the store produced.
pub open spec fn list_reply_view(rows: Result<Seq<MbListFolderDto>, ()>) -> ReplyView {
    match rows {
        Err(_) => ReplyView::Std(ResponseView::err("MB_LIST"@, "Database error"@)),
        Ok(v) => ReplyView::Doc(
            Json::Object(
                seq![
                    ("cmd"@, Json::Str("MB_LIST"@)),
                    ("status"@, Json::Str("OK"@)),
                    ("msg"@, Json::Str("Mailbox folders"@)),
                    ("folders"@, Json::Array(v.map_values(|f: MbListFolderDto| list_row_json(f)))),
                ],
            ),
        ),
    }
}

/// `MB_LIST`: the answer.
pub fn mb_list_reply(rows: Result<Vec<MbListFolderDto>, ()>) -> (r: Reply)
    ensures
        r@ == list_reply_view(match rows { Ok(v) => Ok(v@), Err(_) => Err(()) }),
{
    match rows {
        Err(_) => Reply::Std(Response::err("MB_LIST", "Database error")),
        Ok(v) => {
            let folders = list_rows(&v);
            let doc = obj(vec![member("cmd", text("MB_LIST")), member("status", text("OK")), member("msg", text("Mailbox folders")), member("folders", folders)]);
            proof {
                assert(doc@->Object_0 =~= seq![
                    ("cmd"@, Json::Str("MB_LIST"@)),
                    ("status"@, Json::Str("OK"@)),
                    ("msg"@, Json::Str("Mailbox folders"@)),
                    ("folders"@, Json::Array(v@.map_values(|f: MbListFolderDto| list_row_json(f)))),
                ]);
            }
            Reply::Doc(doc)
        },
    }
}

/// The folder `MB_INFO` asks about: `folder_code`, or `mailbox` when there is
/// no `folder_code` member; a non-empty string.
pub open spec fn info_folder(data: Json) -> Option<Seq<char>> {
    let v = match jget(data, "folder_code"@) {
        Some(x) => Some(x),
        None => jget(data, "mailbox"@),
    };
    match v {
        Some(Json::Str(c)) => if c.len() > 0 { Some(c) } else { None },
        _ => None,
    }
}

/// `MB_INFO`: a session, then the folder.
pub open spec fn info_outcome(data: Json, store: Map<Seq<char>, SessionView>, token: Seq<char>) -> Result<(SessionView, Seq<char>), ResponseView> {
    match token_gate("MB_INFO"@, store, token) {
        Err(e) => Err(e),
        Ok(s) => match info_folder(data) {
            Some(c) => Ok((s, c)),
            None => Err(ResponseView::err("MB_INFO"@, "Missing folder_code"@)),
        },
    }
}

/// `MB_INFO`: checks the request; gives the user and the folder code.
pub fn plan_mb_info(req: &Request, sessions: &SessionStore, token: &str) -> (r: Result<(Oid, String), Response>)
    ensures
        match (r, info_outcome(req.data@, sessions@, token@)) {
            (Ok((u, c)), Ok((s, code))) => s.user_id == Some(u.bytes@) && c@ == code,
            (Err(e), Err(v)) => e@ == v,
            _ => false,
        },
{
    let user = match require_session("MB_INFO", sessions, token) {
        Ok(u) => u,
        Err(e) => return Err(e),
    };
    let v = match req.data.get("folder_code") {
        Some(x) => Some(x),
        None => req.data.get("mailbox"),
    };
    match v {
        Some(JsonValue::Str(c)) => {
            if c.as_str().is_empty() {
                Err(Response::err("MB_INFO", "Missing folder_code"))
            } else {
                Ok((user.user_id, c.clone()))
            }
        },
        _ => Err(Response::err("MB_INFO", "Missing folder_code")),
    }
}

/// The answer to `MB_INFO`, given the folder's details (an error also when
/// the folder does not exist).
pub open spec fn info_reply_view(info: Result<MbFolderInfoDto, ()>) -> ReplyView {
    match info {
        Err(_) => ReplyView::Std(ResponseView::err("MB_INFO"@, "Database error"@)),
        Ok(f) => ReplyView::Doc(
            Json::Object(
                seq![
                    ("cmd"@, Json::Str("MB_INFO"@)),
                    ("status"@, Json::Str("OK"@)),
                    ("msg"@, Json::Str("Folder info"@)),
                    ("folder"@, folder_info_json(f)),
                ],
            ),
        ),
    }
}

/// `MB_INFO`: the answer.
pub fn mb_info_reply(info: Result<MbFolderInfoDto, ()>) -> (r: Reply)
    ensures
        r@ == info_reply_view(info),
{
    match info {
        Err(_) => Reply::Std(Response::err("MB_INFO", "Database error")),
        Ok(f) => {
            let folder = folder_info_value(&f);
            let doc = obj(vec![member("cmd", text("MB_INFO")), member("status", text("OK")), member("msg", text("Folder info")), member("folder", folder)]);
            proof {
                assert(doc@->Object_0 =~= seq![
                    ("cmd"@, Json::Str("MB_INFO"@)),
                    ("status"@, Json::Str("OK"@)),
                    ("msg"@, Json::Str("Folder info"@)),
                    ("folder"@, folder_info_json(f)),
                ]);
            }
            Reply::Doc(doc)
        },
    }
}

/// `MB_PURGE_TRASH` reads its token from `session_token` only.
pub open spec fn purge_outcome(data: Json, store: Map<Seq<char>, SessionView>) -> Result<SessionView, ResponseView> {
    match str_field(data, "session_token"@) {
        Some(t) => if t.len() > 0 {
            session_gate("MB_PURGE_TRASH"@, store, t, true)
        } else {
            Err(ResponseView::err("MB_PURGE_TRASH"@, "Missing session_token"@))
        },
        None => Err(ResponseView::err("MB_PURGE_TRASH"@, "Missing session_token"@)),
    }
}

/// `MB_PURGE_TRASH`: checks the request; gives the user whose BIN is emptied.
pub fn plan_mb_purge_trash(req: &Request, sessions: &SessionStore) -> (r: Result<Oid, Response>)
    ensures
        match (r, purge_outcome(req.data@, sessions@)) {
            (Ok(u), Ok(s)) => s.user_id == Some(u.bytes@),
            (Err(e), Err(v)) => e@ == v,
            _ => false,
        },
{
    let token = match get_str(&req.data, "session_token") {
        Some(t) => if !t.is_empty() { t } else { return Err(Response::err("MB_PURGE_TRASH", "Missing session_token")) },
        None => return Err(Response::err("MB_PURGE_TRASH", "Missing session_token")),
    };
    match resolve_session("MB_PURGE_TRASH", sessions, token, true) {
        Ok(u) => Ok(u.user_id),
        Err(e) => Err(e),
    }
}

/// The answer to `MB_PURGE_TRASH`, given how many messages were deleted.
pub open spec fn purge_reply_view(deleted: Result<u64, ()>) -> ResponseView {
    match deleted {
        Err(_) => ResponseView::err("MB_PURGE_TRASH"@, "Database error"@),
        Ok(n) => ResponseView::ok("MB_PURGE_TRASH"@).with_msg("Trash emptied"@).with_data(Json::Object(seq![("deleted"@, juint(n))])),
    }
}

/// `MB_PURGE_TRASH`: the answer.
pub fn mb_purge_trash_reply(deleted: Result<u64, ()>) -> (r: Response)
    ensures
        r@ == purge_reply_view(deleted),
{
    match deleted {
        Err(_) => Response::err("MB_PURGE_TRASH", "Database error"),
        Ok(n) => {
            let data = obj(vec![member("deleted", uint(n))]);
            proof {
                assert(data@->Object_0 =~= seq![("deleted"@, juint(n))]);
            }
            Response::ok("MB_PURGE_TRASH").with_msg("Trash emptied").with_data(data)
        },
    }
}

/// `MB_RENAME`: an authenticated session with a user, a `folder` and a `new_name`.
pub open spec fn rename_outcome(data: Json, store: Map<Seq<char>, SessionView>, token: Seq<char>) -> Result<(SessionView, Seq<char>, Seq<char>), ResponseView> {
    match lenient_gate("MB_RENAME"@, store, token) {
        Err(e) => Err(e),
        Ok(s) => match str_field(data, "folder"@) {
            None => Err(ResponseView::err("MB_RENAME"@, "Folder code is required"@)),
            Some(f) => match str_field(data, "new_name"@) {
                None => Err(ResponseView::err("MB_RENAME"@, "New name is required"@)),
                Some(n) => Ok((s, f, n)),
            },
        },
    }
}

/// `MB_RENAME`: checks the request; gives the user, the folder code and the new name.
pub fn plan_mb_rename(req: &Request, sessions: &SessionStore, token: &str) -> (r: Result<(Oid, String, String), Response>)
    ensures
        match (r, rename_outcome(req.data@, sessions@, token@)) {
            (Ok((u, f, n)), Ok((s, folder, name))) => s.user_id == Some(u.bytes@) && f@ == folder && n@ == name,
            (Err(e), Err(v)) => e@ == v,
            _ => false,
        },
{
    let user = match require_user("MB_RENAME", sessions, token) {
        Ok(u) => u,
        Err(e) => return Err(e),
    };
    let folder = match get_str(&req.data, "folder") {
        Some(f) => f,
        None => return Err(Response::err("MB_RENAME", "Folder code is required")),
    };
    match get_str(&req.data, "new_name") {
        Some(n) => Ok((user.user_id, folder.to_owned(), n.to_owned())),
        None => Err(Response::err("MB_RENAME", "New name is required")),
    }
}

/// The answer to a folder change, given how many folders changed or the
/// store's error text.
pub open spec fn change_reply_view(cmd: Seq<char>, ok_cmd: Seq<char>, done_msg: Seq<char>, none_msg: Seq<char>, changed: Result<u64, Seq<char>>) -> ResponseView {
    match changed {
        Ok(n) => if n > 0 { ResponseView::ok(ok_cmd).with_msg(done_msg) } else { ResponseView::err(cmd, none_msg) },
        Err(detail) => ResponseView::err(cmd, "Database error: "@ + detail),
    }
}

/// The model of a count or an error text.
pub open spec fn changed_view(c: Result<u64, String>) -> Result<u64, Seq<char>> {
    match c {
        Ok(n) => Ok(n),
        Err(d) => Err(d@),
    }
}

fn change_reply(cmd: &str, ok_cmd: &str, done_msg: &str, none_msg: &str, changed: Result<u64, String>) -> (r: Response)
    ensures
        r@ == change_reply_view(cmd@, ok_cmd@, done_msg@, none_msg@, changed_view(changed)),
{
    match changed {
        Ok(n) => if n > 0 { Response::ok(ok_cmd).with_msg(done_msg) } else { Response::err(cmd, none_msg) },
        Err(detail) => {
            let msg = concat("Database error: ", detail.as_str());
            Response::err(cmd, msg.as_str())
        },
    }
}

/// `MB_RENAME`: the answer.
pub fn mb_rename_reply(changed: Result<u64, String>) -> (r: Response)
    ensures
        r@ == change_reply_view("MB_RENAME"@, "MB_RENAME_OK"@, "Folder renamed successfully"@, "Folder not found or no change"@, changed_view(changed)),
{
    change_reply("MB_RENAME", "MB_RENAME_OK", "Folder renamed successfully", "Folder not found or no change", changed)
}

/// `MB_DELETE`: an authenticated session with a user and a `folder`.
pub open spec fn delete_folder_outcome(data: Json, store: Map<Seq<char>, SessionView>, token: Seq<char>) -> Result<(SessionView, Seq<char>), ResponseView> {
    match lenient_gate("MB_DELETE"@, store, token) {
        Err(e) => Err(e),
        Ok(s) => match str_field(data, "folder"@) {
            None => Err(ResponseView::err("MB_DELETE"@, "Folder code is required"@)),
            Some(f) => Ok((s, f)),
        },
    }
}

/// `MB_DELETE`: checks the request; gives the user and the folder code.
pub fn plan_mb_delete(req: &Request, sessions: &SessionStore, token: &str) -> (r: Result<(Oid, String), Response>)
    ensures
        match (r, delete_folder_outcome(req.data@, sessions@, token@)) {
            (Ok((u, f)), Ok((s, folder))) => s.user_id == Some(u.bytes@) && f@ == folder,
            (Err(e), Err(v)) => e@ == v,
            _ => false,
        },
{
    let user = match require_user("MB_DELETE", sessions, token) {
        Ok(u) => u,
        Err(e) => return Err(e),
    };
    match get_str(&req.data, "folder") {
        Some(f) => Ok((user.user_id, f.to_owned())),
        None => Err(Response::err("MB_DELETE", "Folder code is required")),
    }
}

/// `MB_DELETE`: the answer.
pub fn mb_delete_reply(changed: Result<u64, String>) -> (r: Response)
    ensures
        r@ == change_reply_view("MB_DELETE"@, "MB_DELETE_OK"@, "Folder deleted successfully"@, "Folder not found"@, changed_view(changed)),
{
    change_reply("MB_DELETE", "MB_DELETE_OK", "Folder deleted successfully", "Folder not found", changed)
}

} // verus!

verus! {

/// A folder is only created with a code of 2 to 20 bytes that holds letters
/// and is not a fixed folder's code, and with a name of 1 to 50 bytes.
pub proof fn law_created_folders_are_valid(data: Json, store: Map<Seq<char>, SessionView>, token: Seq<char>)
    requires
        create_outcome(data, store, token) is Ok,
    ensures
        ({
            let (_, code, name) = create_outcome(data, store, token)->Ok_0;
            &&& 2 <= utf8(code).len() <= 20
            &&& 1 <= name.len() && utf8(name).len() <= 50
            &&& unicode_upper(code) != unicode_lower(code)
            &&& !is_reserved_code(unicode_upper(code))
        }),
{
}

} // verus!
