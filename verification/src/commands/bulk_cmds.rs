//! MSG_BULK_ACTION: one action on many messages of a user.
use vstd::prelude::*;
use crate::comm::{Request, Response, ResponseView};
use crate::commands::args::{collect_ids, ids_of_texts, oid_items};
use crate::commands::gate::{require_session, token_gate};
use crate::commands::message_cmds::{target_folder, target_outcome};
use crate::json::{Json, JsonValue, bool_field, get_bool, get_str, jarr, jget, juint, member, obj, str_field, text, uint};
use crate::mailbox::{FlagUpdate, MessageView, flag_update, negated};
use crate::oid::Oid;
use crate::session::{SessionStore, SessionView};
use crate::text::{str_eq, to_upper, unicode_upper};

verus! {

/// What a bulk action does to the selected messages.
pub enum BulkOp {
    Move(String),
    Delete,
    Expunge,
    Flags(FlagUpdate),
}

/// The model of a bulk action: a move to a folder, a move to BIN, a permanent
/// deletion, or setting `read`, `starred` and `important` where given.
pub enum BulkOpView {
    Move(Seq<char>),
    Delete,
    Expunge,
    Flags(Option<bool>, Option<bool>, Option<bool>),
}

/// A checked bulk action: the owner, the action's name, the ids and the operation.
/// The store applies it as [`bulk_applied`] says: to the owner's messages whose
/// id is listed, and to no other.
pub struct BulkTask {
    pub user_id: Oid,
    pub action: String,
    pub ids: Vec<Oid>,
    pub op: BulkOp,
}

/// A flag of the `flags` object: `data.flags.key`, as a boolean.
pub open spec fn flag_member(data: Json, key: Seq<char>) -> Option<bool> {
    match jget(data, "flags"@) {
        Some(f) => bool_field(f, key),
        None => None,
    }
}

/// A flag to clear: set to false when named at all.
pub open spec fn cleared(b: Option<bool>) -> Option<bool> {
    match b {
        Some(_) => Some(false),
        None => None,
    }
}

/// The operation an upper-case action names.
pub open spec fn op_outcome(action: Seq<char>, data: Json) -> Result<BulkOpView, ResponseView> {
    if action == "MOVE"@ {
        match target_outcome("MSG_BULK_ACTION"@, data) {
            Ok(t) => Ok(BulkOpView::Move(t)),
            Err(e) => Err(e),
        }
    } else if action == "DELETE"@ {
        Ok(BulkOpView::Delete)
    } else if action == "EXPUNGE"@ {
        Ok(BulkOpView::Expunge)
    } else if action == "FLAG_SET"@ || action == "FLAG_CLEAR"@ {
        let read = flag_member(data, "read"@);
        let starred = flag_member(data, "starred"@);
        let important = flag_member(data, "important"@);
        if read is None && starred is None && important is None {
            Err(ResponseView::err("MSG_BULK_ACTION"@, "No flags provided"@))
        } else if action == "FLAG_CLEAR"@ {
            Ok(BulkOpView::Flags(cleared(read), cleared(starred), cleared(important)))
        } else {
            Ok(BulkOpView::Flags(read, starred, important))
        }
    } else {
        Err(ResponseView::err("MSG_BULK_ACTION"@, "Unsupported action"@))
    }
}

/// `MSG_BULK_ACTION`: a session; a non-empty `action`, upper-cased; an `ids`
/// array of which the texts of object ids are kept, at least one; then what
/// the action needs.
pub open spec fn bulk_outcome(data: Json, store: Map<Seq<char>, SessionView>, token: Seq<char>) -> Result<(SessionView, Seq<char>, Seq<Seq<char>>, BulkOpView), ResponseView> {
    match token_gate("MSG_BULK_ACTION"@, store, token) {
        Err(e) => Err(e),
        Ok(s) => {
            let a = str_field(data, "action"@);
            if !(a matches Some(x) && x.len() > 0) {
                Err(ResponseView::err("MSG_BULK_ACTION"@, "Missing 'action'"@))
            } else {
                let action = unicode_upper(a->0);
                match jarr(jget(data, "ids"@)) {
                    None => Err(ResponseView::err("MSG_BULK_ACTION"@, "Missing or invalid 'ids'"@)),
                    Some(items) => {
                        let texts = oid_items(items);
                        if texts.len() == 0 {
                            Err(ResponseView::err("MSG_BULK_ACTION"@, "No valid ids provided"@))
                        } else {
                            match op_outcome(action, data) {
                                Err(e) => Err(e),
                                Ok(op) => Ok((s, action, texts, op)),
                            }
                        }
                    },
                }
            }
        },
    }
}

/// Whether an operation matches its model.
pub open spec fn op_matches(op: BulkOp, v: BulkOpView) -> bool {
    match (op, v) {
        (BulkOp::Move(t), BulkOpView::Move(m)) => t@ == m,
        (BulkOp::Delete, BulkOpView::Delete) => true,
        (BulkOp::Expunge, BulkOpView::Expunge) => true,
        (BulkOp::Flags(u), BulkOpView::Flags(read, starred, important)) => u.unread == negated(read) && u.starred == starred
            && u.important == important,
        _ => false,
    }
}

/// Whether a checked bulk action matches its model.
pub open spec fn bulk_matches(r: Result<BulkTask, Response>, m: Result<(SessionView, Seq<char>, Seq<Seq<char>>, BulkOpView), ResponseView>) -> bool {
    match (r, m) {
        (Ok(t), Ok((s, action, texts, op))) => s.user_id == Some(t.user_id.bytes@) && t.action@ == action && ids_of_texts(t.ids@, texts)
            && op_matches(t.op, op),
        (Err(e), Err(v)) => e@ == v,
        _ => false,
    }
}

fn flags_member(data: &JsonValue, key: &str) -> (r: Option<bool>)
    ensures
        r == flag_member(data@, key@),
{
    match data.get("flags") {
        Some(f) => get_bool(f, key),
        None => None,
    }
}

fn clear(b: Option<bool>) -> (r: Option<bool>)
    ensures
        r == cleared(b),
{
    match b {
        Some(_) => Some(false),
        None => None,
    }
}

fn plan_op(action: &str, data: &JsonValue) -> (r: Result<BulkOp, Response>)
    ensures
        match (r, op_outcome(action@, data@)) {
            (Ok(op), Ok(v)) => op_matches(op, v),
            (Err(e), Err(v)) => e@ == v,
            _ => false,
        },
{
    proof {
        reveal_strlit("MOVE");
        reveal_strlit("DELETE");
        reveal_strlit("EXPUNGE");
        reveal_strlit("FLAG_SET");
        reveal_strlit("FLAG_CLEAR");
    }
    if str_eq(action, "MOVE") {
        match target_folder("MSG_BULK_ACTION", data) {
            Ok(t) => Ok(BulkOp::Move(t)),
            Err(e) => Err(e),
        }
    } else if str_eq(action, "DELETE") {
        Ok(BulkOp::Delete)
    } else if str_eq(action, "EXPUNGE") {
        Ok(BulkOp::Expunge)
    } else if str_eq(action, "FLAG_SET") || str_eq(action, "FLAG_CLEAR") {
        let read = flags_member(data, "read");
        let starred = flags_member(data, "starred");
        let important = flags_member(data, "important");
        if read.is_none() && starred.is_none() && important.is_none() {
            return Err(Response::err("MSG_BULK_ACTION", "No flags provided"));
        }
        if str_eq(action, "FLAG_CLEAR") {
            Ok(BulkOp::Flags(flag_update(clear(read), clear(starred), clear(important))))
        } else {
            Ok(BulkOp::Flags(flag_update(read, starred, important)))
        }
    } else {
        Err(Response::err("MSG_BULK_ACTION", "Unsupported action"))
    }
}

/// `MSG_BULK_ACTION`: checks the request as [`bulk_outcome`] says.
pub fn plan_msg_bulk_action(req: &Request, sessions: &SessionStore, token: &str) -> (r: Result<BulkTask, Response>)
    ensures
        bulk_matches(r, bulk_outcome(req.data@, sessions@, token@)),
{
    let user = match require_session("MSG_BULK_ACTION", sessions, token) {
        Ok(u) => u,
        Err(e) => return Err(e),
    };
    let action = match get_str(&req.data, "action") {
        Some(a) => {
            if a.is_empty() {
                return Err(Response::err("MSG_BULK_ACTION", "Missing 'action'"));
            }
            to_upper(a)
        },
        None => return Err(Response::err("MSG_BULK_ACTION", "Missing 'action'")),
    };
    let items = match req.data.get("ids") {
        Some(v) => match v.as_array() {
            Some(a) => a,
            None => return Err(Response::err("MSG_BULK_ACTION", "Missing or invalid 'ids'")),
        },
        None => return Err(Response::err("MSG_BULK_ACTION", "Missing or invalid 'ids'")),
    };
    let ids = collect_ids(items);
    if ids.len() == 0 {
        return Err(Response::err("MSG_BULK_ACTION", "No valid ids provided"));
    }
    match plan_op(action.as_str(), &req.data) {
        Ok(op) => Ok(BulkTask { user_id: user.user_id, action, ids, op }),
        Err(e) => Err(e),
    }
}

/// The answer to `MSG_BULK_ACTION`, given how many messages the store changed.
pub open spec fn bulk_reply_view(action: Seq<char>, total_ids: u64, affected: Result<u64, ()>) -> ResponseView {
    match affected {
        Err(_) => ResponseView::err("MSG_BULK_ACTION"@, "Database error"@),
        Ok(n) => ResponseView::ok("MSG_BULK_ACTION"@).with_msg("Bulk action applied"@).with_data(
            Json::Object(seq![("action"@, Json::Str(action)), ("total_ids"@, juint(total_ids)), ("affected"@, juint(n))]),
        ),
    }
}

/// `MSG_BULK_ACTION`: the answer; `total_ids` counts the valid ids.
pub fn msg_bulk_action_reply(task: &BulkTask, affected: Result<u64, ()>) -> (r: Response)
    ensures
        r@ == bulk_reply_view(task.action@, task.ids@.len() as u64, affected),
{
    match affected {
        Err(_) => Response::err("MSG_BULK_ACTION", "Database error"),
        Ok(n) => {
            let total = task.ids.len() as u64;
            let data = obj(vec![member("action", text(task.action.as_str())), member("total_ids", uint(total)), member("affected", uint(n))]);
            proof {
                assert(data@->Object_0 =~= seq![("action"@, Json::Str(task.action@)), ("total_ids"@, juint(total)), ("affected"@, juint(n))]);
            }
            Response::ok("MSG_BULK_ACTION").with_msg("Bulk action applied").with_data(data)
        },
    }
}

} // verus!

verus! {

/// Whether a bulk action selects a stored message: one of its owner whose id
/// is among the action's ids.
pub open spec fn bulk_selects(task: BulkTask, m: MessageView) -> bool {
    &&& m.user_id == task.user_id.bytes@
    &&& exists|i: int| 0 <= i < task.ids@.len() && (#[trigger] task.ids@[i]).bytes@ == m.id
}

/// A flag after an update: the value set, or the old one where none is.
pub open spec fn updated(set: Option<bool>, prev: bool) -> bool {
    match set {
        Some(b) => b,
        None => prev,
    }
}

/// What a bulk operation makes of one selected message; `None` where it
/// removes the message.
pub open spec fn bulk_effect(op: BulkOp, m: MessageView) -> Option<MessageView> {
    match op {
        BulkOp::Move(t) => Some(MessageView { folder_code: t@, ..m }),
        BulkOp::Delete => Some(MessageView { folder_code: "BIN"@, ..m }),
        BulkOp::Expunge => None,
        BulkOp::Flags(u) => Some(
            MessageView {
                unread: updated(u.unread, m.unread),
                starred: updated(u.starred, m.starred),
                important: updated(u.important, m.important),
                ..m
            },
        ),
    }
}

/// The stored messages after a bulk action, in their order: each selected one
/// changed or removed, every other one as it was.
pub open spec fn bulk_applied(task: BulkTask, msgs: Seq<MessageView>) -> Seq<MessageView>
    decreases msgs.len(),
{
    if msgs.len() == 0 {
        seq![]
    } else {
        let rest = bulk_applied(task, msgs.drop_last());
        let m = msgs.last();
        if bulk_selects(task, m) {
            match bulk_effect(task.op, m) {
                Some(n) => rest.push(n),
                None => rest,
            }
        } else {
            rest.push(m)
        }
    }
}

/// A bulk action keeps, unchanged, every stored message it does not select.
pub proof fn law_bulk_keeps_unselected(task: BulkTask, msgs: Seq<MessageView>, m: MessageView)
    requires
        msgs.contains(m),
        !bulk_selects(task, m),
    ensures
        bulk_applied(task, msgs).contains(m),
    decreases msgs.len(),
{
    let rest = bulk_applied(task, msgs.drop_last());
    if msgs.last() == m {
        assert(bulk_applied(task, msgs) == rest.push(m));
        assert(rest.push(m)[rest.len() as int] == m);
    } else {
        let i = choose|i: int| 0 <= i < msgs.len() && msgs[i] == m;
        assert(msgs.drop_last()[i] == m);
        law_bulk_keeps_unselected(task, msgs.drop_last(), m);
        let j = choose|j: int| 0 <= j < rest.len() && rest[j] == m;
        let last = msgs.last();
        if bulk_selects(task, last) {
            match bulk_effect(task.op, last) {
                Some(n) => assert(rest.push(n)[j] == m),
                None => {},
            }
        } else {
            assert(rest.push(last)[j] == m);
        }
    }
}

/// A bulk action leaves every message of another user as it was, whatever
/// ids it names.
pub proof fn law_bulk_leaves_other_users_untouched(task: BulkTask, msgs: Seq<MessageView>, m: MessageView)
    requires
        msgs.contains(m),
        m.user_id != task.user_id.bytes@,
    ensures
        bulk_applied(task, msgs).contains(m),
{
    law_bulk_keeps_unselected(task, msgs, m);
}

/// A bulk `FLAG_SET` sets each flag exactly as the request's `flags` object
/// gives it: `read` true makes the messages read (the store's `unread` false),
/// `read` false makes them unread, and `starred` and `important` are stored as
/// given; a flag the request leaves out is left alone.
pub proof fn law_bulk_flag_set_sets_as_asked(data: Json, op: BulkOp)
    requires
        op_outcome("FLAG_SET"@, data) matches Ok(v) && op_matches(op, v),
    ensures
        op matches BulkOp::Flags(u) && u.unread == negated(flag_member(data, "read"@)) && u.starred == flag_member(data, "starred"@)
            && u.important == flag_member(data, "important"@),
        flag_member(data, "read"@) == Some(true) ==> (op matches BulkOp::Flags(u) && u.unread == Some(false)),
        flag_member(data, "read"@) == Some(false) ==> (op matches BulkOp::Flags(u) && u.unread == Some(true)),
        forall|m: MessageView| #[trigger] bulk_effect(op, m) matches Some(n) && (flag_member(data, "read"@) matches Some(r) ==> n.unread == !r)
            && (flag_member(data, "read"@) is None ==> n.unread == m.unread),
{
    reveal_strlit("FLAG_CLEAR");
    reveal_strlit("MOVE");
    reveal_strlit("DELETE");
    reveal_strlit("EXPUNGE");
    reveal_strlit("FLAG_SET");
    assert("FLAG_SET"@.len() != "MOVE"@.len());
    assert("FLAG_SET"@.len() != "DELETE"@.len());
    assert("FLAG_SET"@.len() != "EXPUNGE"@.len());
    assert("FLAG_SET"@ != "FLAG_CLEAR"@);
}

/// A bulk `FLAG_CLEAR` only ever clears: every flag it names becomes false.
pub proof fn law_bulk_flag_clear_only_clears(data: Json)
    requires
        op_outcome("FLAG_CLEAR"@, data) is Ok,
    ensures
        op_outcome("FLAG_CLEAR"@, data) matches Ok(BulkOpView::Flags(read, starred, important)) && (read is None || read == Some(false))
            && (starred is None || starred == Some(false)) && (important is None || important == Some(false)),
{
    reveal_strlit("FLAG_CLEAR");
    reveal_strlit("MOVE");
    reveal_strlit("DELETE");
    reveal_strlit("EXPUNGE");
    reveal_strlit("FLAG_SET");
    assert("FLAG_CLEAR"@.len() != "MOVE"@.len());
    assert("FLAG_CLEAR"@.len() != "DELETE"@.len());
    assert("FLAG_CLEAR"@.len() != "EXPUNGE"@.len());
}

} // verus!
