//! Listing and searching: MSG_LIST, SEARCH, SEARCH_GLOBAL and SEARCH_ADV.
//!
//! Each names the filter and paging it sends to the store; the store returns
//! the matching messages newest first; the answer is a document of its own
//! with one summary per message.
use vstd::prelude::*;
use crate::comm::{ostr, Reply, ReplyView, Request, Response, ResponseView};
use crate::commands::gate::{require_session, token_gate};
use crate::commands::views::{ItemShape, all_datable, items_json, message_items};
use crate::json::{JNum, Json, JsonValue, bool_field, get_bool, get_str, get_u64, jget, juint, member, obj, str_field, text, u64_field, uint};
use crate::mailbox::{
    Message, MessageFilter, Paging, SearchCriteria, advanced_filter, folder_filter, global_filter, i64_or, nonempty,
    ostr_ref, owner_only, search_paging, list_paging, simple_filter,
};
use crate::session::{SessionStore, SessionView};
use crate::timefmt::{parse_rfc3339, rfc3339_instant};

verus! {

/// A checked query: the filter and paging for the store, and the offset,
/// limit and folder the answer repeats.
pub struct QueryTask {
    pub filter: MessageFilter,
    pub paging: Paging,
    pub offset: u64,
    pub limit: u64,
    pub folder_code: Option<String>,
}

/// An unsigned member, or a default when absent.
pub open spec fn u64_or(data: Json, key: Seq<char>, fallback: u64) -> u64 {
    match u64_field(data, key) {
        Some(n) => n,
        None => fallback,
    }
}

fn read_u64_or(data: &JsonValue, key: &str, fallback: u64) -> (r: u64)
    ensures
        r == u64_or(data@, key@, fallback),
{
    match get_u64(data, key) {
        Some(n) => n,
        None => fallback,
    }
}

/// A required, non-empty `folder_code`.
pub open spec fn folder_outcome(cmd: Seq<char>, data: Json) -> Result<Seq<char>, ResponseView> {
    match str_field(data, "folder_code"@) {
        Some(c) => if c.len() > 0 { Ok(c) } else { Err(ResponseView::err(cmd, "Missing folder_code"@)) },
        None => Err(ResponseView::err(cmd, "Missing folder_code"@)),
    }
}

fn required_folder<'a>(cmd: &str, data: &'a JsonValue) -> (r: Result<&'a str, Response>)
    ensures
        match (r, folder_outcome(cmd@, data@)) {
            (Ok(c), Ok(m)) => c@ == m,
            (Err(e), Err(v)) => e@ == v,
            _ => false,
        },
{
    match get_str(data, "folder_code") {
        Some(c) => if !c.is_empty() { Ok(c) } else { Err(Response::err(cmd, "Missing folder_code")) },
        None => Err(Response::err(cmd, "Missing folder_code")),
    }
}

/// The model of a checked listing in one folder: owner, folder, offset, limit.
pub open spec fn list_outcome(data: Json, store: Map<Seq<char>, SessionView>, token: Seq<char>) -> Result<(SessionView, Seq<char>, u64, u64), ResponseView> {
    match token_gate("MSG_LIST"@, store, token) {
        Err(e) => Err(e),
        Ok(s) => match folder_outcome("MSG_LIST"@, data) {
            Err(e) => Err(e),
            Ok(f) => Ok((s, f, u64_or(data, "offset"@, 0), u64_or(data, "limit"@, 20))),
        },
    }
}

/// `MSG_LIST`: checks the request; the store is asked for the folder's
/// messages, newest first, under [`list_paging`] (offset 0 and limit 20 when
/// not given).
pub fn plan_msg_list(req: &Request, sessions: &SessionStore, token: &str) -> (r: Result<QueryTask, Response>)
    ensures
        match (r, list_outcome(req.data@, sessions@, token@)) {
            (Ok(t), Ok((s, folder, offset, limit))) => {
                &&& s.user_id == Some(t.filter.user_id.bytes@)
                &&& owner_only(MessageFilter { folder_code: None, ..t.filter }, t.filter.user_id)
                &&& ostr(t.filter.folder_code) == Some(folder)
                &&& t.paging.skip == i64_or(offset, 0) && t.paging.limit == i64_or(limit, 20)
                &&& t.offset == offset && t.limit == limit && ostr(t.folder_code) == Some(folder)
            },
            (Err(e), Err(v)) => e@ == v,
            _ => false,
        },
{
    let user = match require_session("MSG_LIST", sessions, token) {
        Ok(u) => u,
        Err(e) => return Err(e),
    };
    let folder = match required_folder("MSG_LIST", &req.data) {
        Ok(f) => f,
        Err(e) => return Err(e),
    };
    let offset = read_u64_or(&req.data, "offset", 0);
    let limit = read_u64_or(&req.data, "limit", 20);
    Ok(QueryTask {
        filter: folder_filter(user.user_id, folder),
        paging: list_paging(offset, limit),
        offset,
        limit,
        folder_code: Some(folder.to_owned()),
    })
}

/// The model of a checked search in one folder: owner, folder, text, sender,
/// offset, limit.
pub open spec fn search_outcome(data: Json, store: Map<Seq<char>, SessionView>, token: Seq<char>) -> Result<(SessionView, Seq<char>, Option<Seq<char>>, Option<Seq<char>>, u64, u64), ResponseView> {
    match token_gate("SEARCH"@, store, token) {
        Err(e) => Err(e),
        Ok(s) => match folder_outcome("SEARCH"@, data) {
            Err(e) => Err(e),
            Ok(f) => Ok((s, f, str_field(data, "q"@), str_field(data, "from"@), u64_or(data, "offset"@, 0), u64_or(data, "limit"@, 50))),
        },
    }
}

/// `SEARCH`: checks the request; the store is asked under [`simple_filter`]
/// and [`search_paging`] (offset 0 and limit 50 when not given).
pub fn plan_search(req: &Request, sessions: &SessionStore, token: &str) -> (r: Result<QueryTask, Response>)
    ensures
        match (r, search_outcome(req.data@, sessions@, token@)) {
            (Ok(t), Ok((s, folder, q, from, offset, limit))) => {
                &&& s.user_id == Some(t.filter.user_id.bytes@)
                &&& owner_only(MessageFilter { folder_code: None, from: None, text_pattern: None, ..t.filter }, t.filter.user_id)
                &&& ostr(t.filter.folder_code) == Some(folder)
                &&& ostr(t.filter.from) == nonempty(from)
                &&& ostr(t.filter.text_pattern) == nonempty(q)
                &&& t.paging.skip == offset && t.paging.limit == i64_or(limit, 50)
                &&& t.offset == offset && t.limit == limit && ostr(t.folder_code) == Some(folder)
            },
            (Err(e), Err(v)) => e@ == v,
            _ => false,
        },
{
    let user = match require_session("SEARCH", sessions, token) {
        Ok(u) => u,
        Err(e) => return Err(e),
    };
    let folder = match required_folder("SEARCH", &req.data) {
        Ok(f) => f,
        Err(e) => return Err(e),
    };
    let q = get_str(&req.data, "q");
    let from = get_str(&req.data, "from");
    let offset = read_u64_or(&req.data, "offset", 0);
    let limit = read_u64_or(&req.data, "limit", 50);
    Ok(QueryTask {
        filter: simple_filter(user.user_id, folder, q, from),
        paging: search_paging(offset, limit),
        offset,
        limit,
        folder_code: Some(folder.to_owned()),
    })
}

/// The model of a checked search over all folders: owner, text, sender,
/// offset, limit.
pub open spec fn global_outcome(data: Json, store: Map<Seq<char>, SessionView>, token: Seq<char>) -> Result<(SessionView, Option<Seq<char>>, Option<Seq<char>>, u64, u64), ResponseView> {
    match token_gate("SEARCH_GLOBAL"@, store, token) {
        Err(e) => Err(e),
        Ok(s) => Ok((s, str_field(data, "q"@), str_field(data, "from"@), u64_or(data, "offset"@, 0), u64_or(data, "limit"@, 50))),
    }
}

/// `SEARCH_GLOBAL`: checks the request; the store is asked under
/// [`global_filter`] and [`search_paging`].
pub fn plan_search_global(req: &Request, sessions: &SessionStore, token: &str) -> (r: Result<QueryTask, Response>)
    ensures
        match (r, global_outcome(req.data@, sessions@, token@)) {
            (Ok(t), Ok((s, q, from, offset, limit))) => {
                &&& s.user_id == Some(t.filter.user_id.bytes@)
                &&& owner_only(MessageFilter { from: None, text_pattern: None, ..t.filter }, t.filter.user_id)
                &&& ostr(t.filter.from) == nonempty(from)
                &&& ostr(t.filter.text_pattern) == nonempty(q)
                &&& t.paging.skip == offset && t.paging.limit == i64_or(limit, 50)
                &&& t.offset == offset && t.limit == limit && t.folder_code is None
            },
            (Err(e), Err(v)) => e@ == v,
            _ => false,
        },
{
    let user = match require_session("SEARCH_GLOBAL", sessions, token) {
        Ok(u) => u,
        Err(e) => return Err(e),
    };
    let q = get_str(&req.data, "q");
    let from = get_str(&req.data, "from");
    let offset = read_u64_or(&req.data, "offset", 0);
    let limit = read_u64_or(&req.data, "limit", 50);
    Ok(QueryTask { filter: global_filter(user.user_id, q, from), paging: search_paging(offset, limit), offset, limit, folder_code: None })
}

/// A date member read as RFC 3339; absent when missing or not a valid date.
pub open spec fn date_member(data: Json, key: Seq<char>) -> Option<i64> {
    match str_field(data, key) {
        Some(s) => rfc3339_instant(s),
        None => None,
    }
}

fn read_date(data: &JsonValue, key: &str) -> (r: Option<i64>)
    ensures
        r == date_member(data@, key@),
{
    match get_str(data, key) {
        Some(s) => parse_rfc3339(s),
        None => None,
    }
}

fn owned(s: Option<&str>) -> (r: Option<String>)
    ensures
        ostr(r) == ostr_ref(s),
{
    match s {
        Some(t) => Some(t.to_owned()),
        None => None,
    }
}

/// `SEARCH_ADV`: checks the session and reads the criteria; the store is
/// asked under [`advanced_filter`] and [`search_paging`].
pub fn plan_search_adv(req: &Request, sessions: &SessionStore, token: &str) -> (r: Result<QueryTask, Response>)
    ensures
        match (r, token_gate("SEARCH_ADV"@, sessions@, token@)) {
            (Ok(t), Ok(s)) => {
                let d = req.data@;
                &&& s.user_id == Some(t.filter.user_id.bytes@)
                &&& ostr(t.filter.folder_code) == nonempty(str_field(d, "folder_code"@))
                &&& ostr(t.filter.from) == nonempty(str_field(d, "from"@))
                &&& ostr(t.filter.to_pattern) == nonempty(str_field(d, "to"@))
                &&& t.filter.unread == bool_field(d, "unread"@)
                &&& t.filter.starred == bool_field(d, "starred"@)
                &&& t.filter.important == bool_field(d, "important"@)
                &&& t.filter.received_from == date_member(d, "date_from"@)
                &&& t.filter.received_to == date_member(d, "date_to"@)
                &&& ostr(t.filter.text_pattern) == nonempty(str_field(d, "q"@))
                &&& t.offset == u64_or(d, "offset"@, 0) && t.limit == u64_or(d, "limit"@, 50)
                &&& t.paging.skip == t.offset && t.paging.limit == i64_or(t.limit, 50)
                &&& t.folder_code is None
            },
            (Err(e), Err(v)) => e@ == v,
            _ => false,
        },
{
    let user = match require_session("SEARCH_ADV", sessions, token) {
        Ok(u) => u,
        Err(e) => return Err(e),
    };
    let c = SearchCriteria {
        folder_code: owned(get_str(&req.data, "folder_code")),
        q: owned(get_str(&req.data, "q")),
        from: owned(get_str(&req.data, "from")),
        to: owned(get_str(&req.data, "to")),
        unread: get_bool(&req.data, "unread"),
        starred: get_bool(&req.data, "starred"),
        important: get_bool(&req.data, "important"),
        date_from: read_date(&req.data, "date_from"),
        date_to: read_date(&req.data, "date_to"),
    };
    let offset = read_u64_or(&req.data, "offset", 0);
    let limit = read_u64_or(&req.data, "limit", 50);
    let filter = advanced_filter(user.user_id, &c);
    Ok(QueryTask { filter, paging: search_paging(offset, limit), offset, limit, folder_code: None })
}

/// The document a query answers with: its name, status OK, a message, the
/// folder when there is one, the offset and limit, and the summaries.
pub open spec fn query_doc(cmd: Seq<char>, msg: Seq<char>, folder: Option<Seq<char>>, offset: u64, limit: u64, items: Seq<Json>) -> Json {
    let head = seq![("cmd"@, Json::Str(cmd)), ("status"@, Json::Str("OK"@)), ("msg"@, Json::Str(msg))];
    let place = match folder {
        Some(f) => seq![("folder_code"@, Json::Str(f))],
        None => Seq::empty(),
    };
    Json::Object(head + place + seq![("offset"@, juint(offset)), ("limit"@, juint(limit)), ("messages"@, Json::Array(items))])
}

/// The answer to a query, given what the store returned.
pub open spec fn query_reply_view(cmd: Seq<char>, msg: Seq<char>, shape: ItemShape, folder: Option<Seq<char>>, offset: u64, limit: u64, found: Result<Seq<Message>, ()>) -> ReplyView {
    match found {
        Err(_) => ReplyView::Std(ResponseView::err(cmd, "Database error"@)),
        Ok(ms) => ReplyView::Doc(query_doc(cmd, msg, folder, offset, limit, items_json(ms, shape))),
    }
}

/// The model of the messages a store returned.
pub open spec fn found_view(found: Result<Vec<Message>, ()>) -> Result<Seq<Message>, ()> {
    match found {
        Ok(v) => Ok(v@),
        Err(_) => Err(()),
    }
}

fn query_reply(cmd: &str, msg: &str, shape: ItemShape, task: &QueryTask, found: Result<Vec<Message>, ()>) -> (r: Reply)
    requires
        found matches Ok(ms) ==> all_datable(ms@),
    ensures
        r@ == query_reply_view(cmd@, msg@, shape, ostr(task.folder_code), task.offset, task.limit, found_view(found)),
{
    match found {
        Err(_) => Reply::Std(Response::err(cmd, "Database error")),
        Ok(ms) => {
            let items = message_items(&ms, &shape);
            let mut members: Vec<(String, JsonValue)> = Vec::new();
            members.push(member("cmd", text(cmd)));
            members.push(member("status", text("OK")));
            members.push(member("msg", text(msg)));
            match &task.folder_code {
                Some(f) => members.push(member("folder_code", text(f.as_str()))),
                None => {},
            }
            members.push(member("offset", uint(task.offset)));
            members.push(member("limit", uint(task.limit)));
            members.push(member("messages", items));
            let doc = obj(members);
            proof {
                assert(doc@->Object_0 =~= query_doc(cmd@, msg@, ostr(task.folder_code), task.offset, task.limit, items_json(ms@, shape))->Object_0);
            }
            Reply::Doc(doc)
        },
    }
}

/// `MSG_LIST`: the answer.
pub fn msg_list_reply(task: &QueryTask, found: Result<Vec<Message>, ()>) -> (r: Reply)
    requires
        found matches Ok(ms) ==> all_datable(ms@),
    ensures
        r@ == query_reply_view("MSG_LIST"@, "Messages"@, ItemShape::Listing, ostr(task.folder_code), task.offset, task.limit, found_view(found)),
{
    query_reply("MSG_LIST", "Messages", ItemShape::Listing, task, found)
}

/// `SEARCH`: the answer.
pub fn search_reply(task: &QueryTask, found: Result<Vec<Message>, ()>) -> (r: Reply)
    requires
        found matches Ok(ms) ==> all_datable(ms@),
    ensures
        r@ == query_reply_view("SEARCH"@, "Search results"@, ItemShape::Search, ostr(task.folder_code), task.offset, task.limit, found_view(found)),
{
    query_reply("SEARCH", "Search results", ItemShape::Search, task, found)
}

/// `SEARCH_GLOBAL`: the answer.
pub fn search_global_reply(task: &QueryTask, found: Result<Vec<Message>, ()>) -> (r: Reply)
    requires
        found matches Ok(ms) ==> all_datable(ms@),
    ensures
        r@ == query_reply_view("SEARCH_GLOBAL"@, "Global search results"@, ItemShape::Global, ostr(task.folder_code), task.offset, task.limit, found_view(found)),
{
    query_reply("SEARCH_GLOBAL", "Global search results", ItemShape::Global, task, found)
}

/// `SEARCH_ADV`: the answer.
pub fn search_adv_reply(task: &QueryTask, found: Result<Vec<Message>, ()>) -> (r: Reply)
    requires
        found matches Ok(ms) ==> all_datable(ms@),
    ensures
        r@ == query_reply_view("SEARCH_ADV"@, "Advanced search results"@, ItemShape::Global, ostr(task.folder_code), task.offset, task.limit, found_view(found)),
{
    query_reply("SEARCH_ADV", "Advanced search results", ItemShape::Global, task, found)
}

} // verus!

verus! {

/// `MSG_LIST` lists the page the request asks for. The offset it keeps is
/// the request's `offset` member whenever that is an unsigned integer, and 0
/// only when it is absent or not one; the limit likewise, with 20 in its
/// place. The store then skips exactly that many messages and returns at most
/// that many (when they fit in `i64`), and the answer repeats the offset, the
/// limit and the folder.
pub proof fn law_msg_list_pages(data: Json, store: Map<Seq<char>, SessionView>, token: Seq<char>, items: Seq<Json>)
    requires
        list_outcome(data, store, token) is Ok,
    ensures
        ({
            let (_s, folder, offset, limit) = list_outcome(data, store, token)->Ok_0;
            &&& (jget(data, "offset"@) matches Some(Json::Number(JNum::PosInt(n))) ==> offset == n)
            &&& (!(jget(data, "offset"@) matches Some(Json::Number(JNum::PosInt(_)))) ==> offset == 0)
            &&& (offset <= i64::MAX ==> i64_or(offset, 0) == offset)
            &&& (jget(data, "limit"@) matches Some(Json::Number(JNum::PosInt(n))) ==> limit == n)
            &&& (!(jget(data, "limit"@) matches Some(Json::Number(JNum::PosInt(_)))) ==> limit == 20)
            &&& (limit <= i64::MAX ==> i64_or(limit, 20) == limit)
            &&& jget(query_doc("MSG_LIST"@, "Messages"@, Some(folder), offset, limit, items), "limit"@) == Some(juint(limit))
            &&& jget(query_doc("MSG_LIST"@, "Messages"@, Some(folder), offset, limit, items), "offset"@) == Some(juint(offset))
            &&& jget(query_doc("MSG_LIST"@, "Messages"@, Some(folder), offset, limit, items), "folder_code"@) == Some(Json::Str(folder))
        }),
{
    reveal_strlit("cmd");
    reveal_strlit("status");
    reveal_strlit("msg");
    reveal_strlit("folder_code");
    reveal_strlit("offset");
    reveal_strlit("limit");
    let (_s, folder, offset, limit) = list_outcome(data, store, token)->Ok_0;
    let fields = query_doc("MSG_LIST"@, "Messages"@, Some(folder), offset, limit, items)->Object_0;
    assert(fields =~= seq![
        ("cmd"@, Json::Str("MSG_LIST"@)),
        ("status"@, Json::Str("OK"@)),
        ("msg"@, Json::Str("Messages"@)),
        ("folder_code"@, Json::Str(folder)),
        ("offset"@, juint(offset)),
        ("limit"@, juint(limit)),
        ("messages"@, Json::Array(items)),
    ]);
    assert(fields[0].0.len() != "offset"@.len());
    assert(fields[1].0[0] != "offset"@[0]);
    assert(fields[1].0.len() != "folder_code"@.len());
    assert(fields[0].0.len() != "limit"@.len());
    assert(fields[1].0.len() != "limit"@.len());
    assert(fields[2].0.len() != "limit"@.len());
    assert(fields[3].0.len() != "limit"@.len());
    assert(fields[4].0.len() != "limit"@.len());
    assert(fields[0].0 != "offset"@);
    assert(fields[1].0 != "offset"@);
    assert(fields[2].0 != "offset"@);
    assert(fields[3].0 != "offset"@);
    assert(fields[0].0 != "folder_code"@);
    assert(fields[1].0 != "folder_code"@);
    assert(fields[2].0 != "folder_code"@);
    reveal_with_fuel(crate::json::lookup, 7);
}

} // verus!
