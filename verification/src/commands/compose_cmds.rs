//! Writing mail: MSG_SEND and MSG_SEND_DRAFT.
//!
//! The sender is always the session's address. A sent message is kept in the
//! sender's SENT folder and a copy goes to the INBOX of each recipient who is
//! a registered user; a draft is kept in DRAFTS. Attachments are named by
//! upload id and only completed uploads are attached.
use vstd::prelude::*;
use crate::comm::{Request, Response, ResponseView};
use crate::commands::args::{collect_strings, lower_all, string_items};
use crate::commands::gate::{require_session, token_gate};
use crate::commands::views::jstrings;
use crate::json::{Json, JsonValue, jarr, jget, get_str, member, obj, str_field, text, text_array, uint, juint};
use crate::mailbox::{Message, composed, copy_strings, inbox_message, strings_view};
use crate::oid::{Oid, oid_hex, oid_to_hex};
use crate::session::{SessionStore, SessionView};
use crate::text::unicode_lower;

verus! {

/// A message to store: its owner and sender, recipients (and their lookup
/// keys), subject, body and the uploads it names.
pub struct ComposeTask {
    pub user_id: Oid,
    pub from: String,
    pub to: Vec<String>,
    pub recipients: Vec<String>,
    pub subject: String,
    pub body: String,
    pub attachment_ids: Vec<String>,
}

/// The checked content of a compose request.
pub struct ComposeView {
    pub session: SessionView,
    pub from: Seq<char>,
    pub to: Seq<Seq<char>>,
    pub subject: Seq<char>,
    pub body: Seq<char>,
    pub attachment_ids: Seq<Seq<char>>,
}

/// A string member, or empty when absent.
pub open spec fn text_or_empty(data: Json, key: Seq<char>) -> Seq<char> {
    match str_field(data, key) {
        Some(s) => s,
        None => Seq::empty(),
    }
}

/// The upload ids a request names: the strings of its `attachment_ids` array.
pub open spec fn attachment_ids_of(data: Json) -> Seq<Seq<char>> {
    match jarr(jget(data, "attachment_ids"@)) {
        Some(items) => string_items(items, false),
        None => Seq::empty(),
    }
}

/// The session's address, which must be present and not empty.
pub open spec fn sender_of(cmd: Seq<char>, s: SessionView) -> Result<Seq<char>, ResponseView> {
    match s.email {
        Some(e) => if e.len() > 0 { Ok(e) } else { Err(ResponseView::err(cmd, "Session email missing"@)) },
        None => Err(ResponseView::err(cmd, "Session email missing"@)),
    }
}

/// `MSG_SEND`: an authenticated session with an address, then a non-empty
/// `to` array whose non-empty strings are the recipients; there must be one.
pub open spec fn send_outcome(data: Json, store: Map<Seq<char>, SessionView>, token: Seq<char>) -> Result<ComposeView, ResponseView> {
    match token_gate("MSG_SEND"@, store, token) {
        Err(e) => Err(e),
        Ok(s) => match sender_of("MSG_SEND"@, s) {
            Err(e) => Err(e),
            Ok(from) => match jarr(jget(data, "to"@)) {
                None => Err(ResponseView::err("MSG_SEND"@, "Missing or invalid 'to' array"@)),
                Some(items) => {
                    let to = string_items(items, true);
                    if to.len() == 0 {
                        Err(ResponseView::err("MSG_SEND"@, "Empty 'to' list"@))
                    } else {
                        Ok(ComposeView {
                            session: s,
                            from,
                            to,
                            subject: text_or_empty(data, "subject"@),
                            body: text_or_empty(data, "body"@),
                            attachment_ids: attachment_ids_of(data),
                        })
                    }
                },
            },
        },
    }
}

/// `MSG_SEND_DRAFT`: like `MSG_SEND`, but the recipients may be missing or none.
pub open spec fn draft_outcome(data: Json, store: Map<Seq<char>, SessionView>, token: Seq<char>) -> Result<ComposeView, ResponseView> {
    match token_gate("MSG_SEND_DRAFT"@, store, token) {
        Err(e) => Err(e),
        Ok(s) => match sender_of("MSG_SEND_DRAFT"@, s) {
            Err(e) => Err(e),
            Ok(from) => Ok(ComposeView {
                session: s,
                from,
                to: match jarr(jget(data, "to"@)) {
                    Some(items) => string_items(items, true),
                    None => Seq::empty(),
                },
                subject: text_or_empty(data, "subject"@),
                body: text_or_empty(data, "body"@),
                attachment_ids: attachment_ids_of(data),
            }),
        },
    }
}

/// Whether a checked compose request matches its model.
pub open spec fn compose_matches(r: Result<ComposeTask, Response>, m: Result<ComposeView, ResponseView>) -> bool {
    match (r, m) {
        (Ok(t), Ok(v)) => {
            &&& v.session.user_id == Some(t.user_id.bytes@)
            &&& t.from@ == v.from
            &&& strings_view(t.to@) == v.to
            &&& t.recipients@.len() == t.to@.len()
            &&& forall|j: int| 0 <= j < t.to@.len() ==> (#[trigger] t.recipients@[j])@ == unicode_lower(t.to@[j]@)
            &&& t.subject@ == v.subject
            &&& t.body@ == v.body
            &&& strings_view(t.attachment_ids@) == v.attachment_ids
        },
        (Err(e), Err(v)) => e@ == v,
        _ => false,
    }
}

fn text_member(data: &JsonValue, key: &str) -> (r: String)
    ensures
        r@ == text_or_empty(data@, key@),
{
    match get_str(data, key) {
        Some(s) => s.to_owned(),
        None => String::new(),
    }
}

fn attachment_ids(data: &JsonValue) -> (r: Vec<String>)
    ensures
        strings_view(r@) == attachment_ids_of(data@),
{
    match data.get("attachment_ids") {
        Some(v) => match v.as_array() {
            Some(items) => collect_strings(items, false),
            None => Vec::new(),
        },
        None => Vec::new(),
    }
}

fn sender(cmd: &str, email: Option<String>) -> (r: Result<String, Response>)
    ensures
        match r {
            Ok(e) => email matches Some(x) && x@.len() > 0 && e@ == x@,
            Err(x) => x@ == ResponseView::err(cmd@, "Session email missing"@) && !(email matches Some(y) && y@.len() > 0),
        },
{
    match email {
        Some(e) => if !e.as_str().is_empty() { Ok(e) } else { Err(Response::err(cmd, "Session email missing")) },
        None => Err(Response::err(cmd, "Session email missing")),
    }
}

/// `MSG_SEND`: checks the request as [`send_outcome`] says.
pub fn plan_msg_send(req: &Request, sessions: &SessionStore, token: &str) -> (r: Result<ComposeTask, Response>)
    ensures
        compose_matches(r, send_outcome(req.data@, sessions@, token@)),
{
    let user = match require_session("MSG_SEND", sessions, token) {
        Ok(u) => u,
        Err(e) => return Err(e),
    };
    let from = match sender("MSG_SEND", user.email) {
        Ok(f) => f,
        Err(e) => return Err(e),
    };
    let items = match req.data.get("to") {
        Some(v) => match v.as_array() {
            Some(a) => a,
            None => return Err(Response::err("MSG_SEND", "Missing or invalid 'to' array")),
        },
        None => return Err(Response::err("MSG_SEND", "Missing or invalid 'to' array")),
    };
    let to = collect_strings(items, true);
    if to.len() == 0 {
        return Err(Response::err("MSG_SEND", "Empty 'to' list"));
    }
    let recipients = lower_all(&to);
    Ok(ComposeTask {
        user_id: user.user_id,
        from,
        to,
        recipients,
        subject: text_member(&req.data, "subject"),
        body: text_member(&req.data, "body"),
        attachment_ids: attachment_ids(&req.data),
    })
}

/// `MSG_SEND_DRAFT`: checks the request as [`draft_outcome`] says.
pub fn plan_msg_send_draft(req: &Request, sessions: &SessionStore, token: &str) -> (r: Result<ComposeTask, Response>)
    ensures
        compose_matches(r, draft_outcome(req.data@, sessions@, token@)),
{
    let user = match require_session("MSG_SEND_DRAFT", sessions, token) {
        Ok(u) => u,
        Err(e) => return Err(e),
    };
    let from = match sender("MSG_SEND_DRAFT", user.email) {
        Ok(f) => f,
        Err(e) => return Err(e),
    };
    let to = match req.data.get("to") {
        Some(v) => match v.as_array() {
            Some(a) => collect_strings(a, true),
            None => Vec::new(),
        },
        None => Vec::new(),
    };
    assert(strings_view(Seq::<String>::empty()) =~= Seq::<Seq<char>>::empty());
    let recipients = lower_all(&to);
    Ok(ComposeTask {
        user_id: user.user_id,
        from,
        to,
        recipients,
        subject: text_member(&req.data, "subject"),
        body: text_member(&req.data, "body"),
        attachment_ids: attachment_ids(&req.data),
    })
}

/// How many of `s` are `true`.
pub open spec fn count_true(s: Seq<bool>) -> nat
    decreases s.len(),
{
    if s.len() == 0 {
        0
    } else {
        count_true(s.drop_last()) + if s.last() { 1nat } else { 0nat }
    }
}

/// `MSG_SEND`, delivery: given, for each recipient in order, the user the
/// address belongs to (`None` when it is no registered user) and a fresh id,
/// the copy that goes to that user's INBOX: unread, from the sender, with the
/// whole recipient list, the subject and the body, and no attachments.
pub fn inbox_copies(task: &ComposeTask, owners: &Vec<Option<Oid>>, ids: &Vec<Oid>, now: i64) -> (r: Vec<Option<Message>>)
    requires
        ids@.len() == owners@.len(),
    ensures
        r@.len() == owners@.len(),
        forall|i: int| 0 <= i < owners@.len() ==> match owners@[i] {
            Some(u) => (#[trigger] r@[i]) matches Some(m) && m@ == composed(
                ids@[i], u, "INBOX"@, task.from@, strings_view(task.to@), task.subject@, task.body@, now, true, Seq::empty(),
            ),
            None => r@[i] is None,
        },
{
    let mut out: Vec<Option<Message>> = Vec::new();
    let mut i: usize = 0;
    while i < owners.len()
        invariant
            i <= owners@.len(),
            ids@.len() == owners@.len(),
            out@.len() == i,
            forall|j: int| 0 <= j < i ==> match owners@[j] {
                Some(u) => (#[trigger] out@[j]) matches Some(m) && m@ == composed(
                    ids@[j], u, "INBOX"@, task.from@, strings_view(task.to@), task.subject@, task.body@, now, true, Seq::empty(),
                ),
                None => out@[j] is None,
            },
        decreases owners.len() - i,
    {
        match owners[i] {
            Some(u) => {
                let m = inbox_message(ids[i], u, task.from.as_str(), copy_strings(&task.to), task.subject.as_str(), task.body.as_str(), now);
                out.push(Some(m));
            },
            None => out.push(None),
        }
        i += 1;
    }
    out
}

/// `MSG_SEND`, delivery: how many inbox copies the store accepted.
pub fn delivered_count(stored: &Vec<bool>) -> (r: u64)
    ensures
        r == count_true(stored@),
{
    let mut n: u64 = 0;
    let mut i: usize = 0;
    while i < stored.len()
        invariant
            i <= stored@.len(),
            n == count_true(stored@.take(i as int)),
            n <= i,
        decreases stored.len() - i,
    {
        assert(stored@.take(i + 1).drop_last() =~= stored@.take(i as int));
        if stored[i] {
            n += 1;
        }
        i += 1;
    }
    assert(stored@.take(stored@.len() as int) =~= stored@);
    n
}

/// The answer to `MSG_SEND`, given the stored message's id and how many
/// recipients' inboxes received it.
pub open spec fn send_reply_view(stored: Result<Seq<u8>, ()>, from: Seq<char>, to: Seq<Seq<char>>, subject: Seq<char>, delivered: u64) -> ResponseView {
    match stored {
        Err(_) => ResponseView::err("MSG_SEND"@, "Database error"@),
        Ok(id) => ResponseView::ok("MSG_SEND"@).with_msg("Message stored in Sent"@).with_data(
            Json::Object(
                seq![
                    ("id"@, Json::Str(oid_hex(id))),
                    ("folder_code"@, Json::Str("SENT"@)),
                    ("from"@, Json::Str(from)),
                    ("to"@, jstrings(to)),
                    ("subject"@, Json::Str(subject)),
                    ("delivered"@, juint(delivered)),
                ],
            ),
        ),
    }
}

/// The model of a store outcome that is an id.
pub open spec fn stored_id(o: Result<Oid, ()>) -> Result<Seq<u8>, ()> {
    match o {
        Ok(id) => Ok(id.bytes@),
        Err(_) => Err(()),
    }
}

/// `MSG_SEND`: the answer.
pub fn msg_send_reply(task: &ComposeTask, stored: Result<Oid, ()>, delivered: u64) -> (r: Response)
    ensures
        r@ == send_reply_view(stored_id(stored), task.from@, strings_view(task.to@), task.subject@, delivered),
{
    match stored {
        Err(_) => Response::err("MSG_SEND", "Database error"),
        Ok(id) => {
            let to = text_array(&task.to);
            let data = obj(
                vec![
                    member("id", JsonValue::Str(oid_to_hex(&id))),
                    member("folder_code", text("SENT")),
                    member("from", text(task.from.as_str())),
                    member("to", to),
                    member("subject", text(task.subject.as_str())),
                    member("delivered", uint(delivered)),
                ],
            );
            proof {
                assert(to@->Array_0 =~= jstrings(strings_view(task.to@))->Array_0);
                assert(data@->Object_0 =~= seq![
                    ("id"@, Json::Str(oid_hex(id.bytes@))),
                    ("folder_code"@, Json::Str("SENT"@)),
                    ("from"@, Json::Str(task.from@)),
                    ("to"@, jstrings(strings_view(task.to@))),
                    ("subject"@, Json::Str(task.subject@)),
                    ("delivered"@, juint(delivered)),
                ]);
            }
            Response::ok("MSG_SEND").with_msg("Message stored in Sent").with_data(data)
        },
    }
}

/// The answer to `MSG_SEND_DRAFT`, given the stored draft's id.
pub open spec fn draft_reply_view(stored: Result<Seq<u8>, ()>, from: Seq<char>, to: Seq<Seq<char>>, subject: Seq<char>) -> ResponseView {
    match stored {
        Err(_) => ResponseView::err("MSG_SEND_DRAFT"@, "Database error"@),
        Ok(id) => ResponseView::ok("MSG_SEND_DRAFT"@).with_msg("Draft stored in Drafts"@).with_data(
            Json::Object(
                seq![
                    ("id"@, Json::Str(oid_hex(id))),
                    ("folder_code"@, Json::Str("DRAFTS"@)),
                    ("from"@, Json::Str(from)),
                    ("to"@, jstrings(to)),
                    ("subject"@, Json::Str(subject)),
                ],
            ),
        ),
    }
}

/// `MSG_SEND_DRAFT`: the answer.
pub fn msg_send_draft_reply(task: &ComposeTask, stored: Result<Oid, ()>) -> (r: Response)
    ensures
        r@ == draft_reply_view(stored_id(stored), task.from@, strings_view(task.to@), task.subject@),
{
    match stored {
        Err(_) => Response::err("MSG_SEND_DRAFT", "Database error"),
        Ok(id) => {
            let to = text_array(&task.to);
            let data = obj(
                vec![
                    member("id", JsonValue::Str(oid_to_hex(&id))),
                    member("folder_code", text("DRAFTS")),
                    member("from", text(task.from.as_str())),
                    member("to", to),
                    member("subject", text(task.subject.as_str())),
                ],
            );
            proof {
                assert(to@->Array_0 =~= jstrings(strings_view(task.to@))->Array_0);
                assert(data@->Object_0 =~= seq![
                    ("id"@, Json::Str(oid_hex(id.bytes@))),
                    ("folder_code"@, Json::Str("DRAFTS"@)),
                    ("from"@, Json::Str(task.from@)),
                    ("to"@, jstrings(strings_view(task.to@))),
                    ("subject"@, Json::Str(task.subject@)),
                ]);
            }
            Response::ok("MSG_SEND_DRAFT").with_msg("Draft stored in Drafts").with_data(data)
        },
    }
}

} // verus!

verus! {

/// The strings among `items` are exactly the string items, each kept.
proof fn lemma_string_items_members(items: Seq<Json>)
    ensures
        forall|i: int| #![trigger items[i]] 0 <= i < items.len() ==> (items[i] matches Json::Str(t) ==> string_items(items, false).contains(t)),
        forall|t: Seq<char>| #[trigger] string_items(items, false).contains(t) ==> exists|i: int| 0 <= i < items.len() && items[i] == Json::Str(t),
        string_items(items, false).len() <= items.len(),
    decreases items.len(),
{
    if items.len() > 0 {
        let init = items.drop_last();
        lemma_string_items_members(init);
        let rest = string_items(init, false);
        let all = string_items(items, false);
        assert forall|i: int| #![trigger items[i]] 0 <= i < items.len() implies (items[i] matches Json::Str(t) ==> all.contains(t)) by {
            if let Json::Str(t) = items[i] {
                if i < items.len() - 1 {
                    assert(init[i] == items[i]);
                    let j = choose|j: int| 0 <= j < rest.len() && rest[j] == t;
                    assert(all[j] == t);
                } else {
                    assert(all[all.len() - 1] == t);
                }
            }
        }
        assert forall|t: Seq<char>| #[trigger] all.contains(t) implies exists|i: int| 0 <= i < items.len() && items[i] == Json::Str(t) by {
            let j = choose|j: int| 0 <= j < all.len() && all[j] == t;
            if j < rest.len() {
                assert(all[j] == rest[j]);
                assert(rest.contains(t));
                let i = choose|i: int| 0 <= i < init.len() && init[i] == Json::Str(t);
                assert(items[i] == init[i]);
            } else {
                assert(items[items.len() - 1] == Json::Str(t));
            }
        }
    }
}

/// A draft names every upload its request lists: the ids it keeps are
/// exactly the strings of the request's `attachment_ids` array, none dropped
/// and none added; and they are the ids a `MSG_SEND` of the same data keeps.
pub proof fn law_draft_keeps_attachment_ids(data: Json, store: Map<Seq<char>, SessionView>, token: Seq<char>, items: Seq<Json>)
    requires
        draft_outcome(data, store, token) is Ok,
        jget(data, "attachment_ids"@) == Some(Json::Array(items)),
    ensures
        ({
            let ids = draft_outcome(data, store, token)->Ok_0.attachment_ids;
            &&& forall|i: int| #![trigger items[i]] 0 <= i < items.len() ==> (items[i] matches Json::Str(t) ==> ids.contains(t))
            &&& forall|t: Seq<char>| #[trigger] ids.contains(t) ==> exists|i: int| 0 <= i < items.len() && items[i] == Json::Str(t)
            &&& ids.len() <= items.len()
            &&& (send_outcome(data, store, token) is Ok ==> send_outcome(data, store, token)->Ok_0.attachment_ids == ids)
        }),
{
    lemma_string_items_members(items);
}

/// A sent message names every upload its request lists, as a draft does.
pub proof fn law_send_keeps_attachment_ids(data: Json, store: Map<Seq<char>, SessionView>, token: Seq<char>, items: Seq<Json>)
    requires
        send_outcome(data, store, token) is Ok,
        jget(data, "attachment_ids"@) == Some(Json::Array(items)),
    ensures
        ({
            let ids = send_outcome(data, store, token)->Ok_0.attachment_ids;
            &&& forall|i: int| #![trigger items[i]] 0 <= i < items.len() ==> (items[i] matches Json::Str(t) ==> ids.contains(t))
            &&& forall|t: Seq<char>| #[trigger] ids.contains(t) ==> exists|i: int| 0 <= i < items.len() && items[i] == Json::Str(t)
            &&& ids.len() <= items.len()
        }),
{
    lemma_string_items_members(items);
}

} // verus!
