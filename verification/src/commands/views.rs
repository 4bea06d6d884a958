//! How stored messages and folders are written into answers.
use vstd::prelude::*;
use crate::json::{Json, JsonValue, arr, boolean, jget, jopt_text, juint, member, obj, opt_text, text, text_array, uint};
use crate::mailbox::{AttachmentMeta, AttachmentView, MbFolderInfoDto, MbListFolderDto, Message, MessageView};
use crate::comm::ostr;
use crate::oid::{oid_hex, oid_to_hex};
use crate::timefmt::{fits_calendar, in_calendar_range, rfc3339_of, rfc3339_text};

verus! {

/// A list of strings as a JSON array.
pub open spec fn jstrings(v: Seq<Seq<char>>) -> Json {
    Json::Array(v.map_values(|s: Seq<char>| Json::Str(s)))
}

/// An attachment record as written in answers.
pub open spec fn attachment_json(a: AttachmentView) -> Json {
    Json::Object(
        seq![
            ("id"@, Json::Str(a.id)),
            ("filename"@, Json::Str(a.filename)),
            ("mime_type"@, Json::Str(a.mime_type)),
            ("size_bytes"@, juint(a.size_bytes)),
            ("gridfs_id"@, Json::Str(a.gridfs_id)),
        ],
    )
}

fn attachment_value(a: &AttachmentMeta) -> (r: JsonValue)
    ensures
        r@ == attachment_json(a@),
{
    let r = obj(
        vec![
            member("id", text(a.id.as_str())),
            member("filename", text(a.filename.as_str())),
            member("mime_type", text(a.mime_type.as_str())),
            member("size_bytes", uint(a.size_bytes)),
            member("gridfs_id", text(a.gridfs_id.as_str())),
        ],
    );
    assert(r@->Object_0 =~= attachment_json(a@)->Object_0);
    r
}

fn attachments_value(v: &Vec<AttachmentMeta>) -> (r: JsonValue)
    ensures
        r@ == Json::Array(v@.map_values(|a: AttachmentMeta| attachment_json(a@))),
{
    let mut items: Vec<JsonValue> = Vec::new();
    let mut i: usize = 0;
    while i < v.len()
        invariant
            i <= v.len(),
            items@.len() == i,
            forall|j: int| 0 <= j < i ==> (#[trigger] items@[j])@ == attachment_json(v@[j]@),
        decreases v.len() - i,
    {
        items.push(attachment_value(&v[i]));
        i += 1;
    }
    let r = arr(items);
    assert(r@->Array_0 =~= v@.map_values(|a: AttachmentMeta| attachment_json(a@)));
    r
}

/// A whole message as `MSG_GET` writes it.
pub open spec fn message_doc_json(m: MessageView) -> Json {
    Json::Object(
        seq![
            ("id"@, Json::Str(oid_hex(m.id))),
            ("folder_code"@, Json::Str(m.folder_code)),
            ("from"@, Json::Str(m.from)),
            ("to"@, jstrings(m.to)),
            ("subject"@, Json::Str(m.subject)),
            ("snippet"@, jopt_text(m.snippet)),
            ("body"@, jopt_text(m.body)),
            ("received_at"@, Json::Str(rfc3339_of(m.received_at))),
            ("unread"@, Json::Bool(m.unread)),
            ("attachments"@, Json::Array(m.attachments.map_values(|a: AttachmentView| attachment_json(a)))),
        ],
    )
}

/// Writes a whole message as [`message_doc_json`] says.
pub fn message_doc(m: &Message) -> (r: JsonValue)
    requires
        in_calendar_range(m.received_at),
    ensures
        r@ == message_doc_json(m@),
{
    let to = text_array(&m.to);
    let atts = attachments_value(&m.attachments);
    let r = obj(
        vec![
            member("id", JsonValue::Str(oid_to_hex(&m.id))),
            member("folder_code", text(m.folder_code.as_str())),
            member("from", text(m.from.as_str())),
            member("to", to),
            member("subject", text(m.subject.as_str())),
            member("snippet", opt_text(&m.snippet)),
            member("body", opt_text(&m.body)),
            member("received_at", JsonValue::Str(rfc3339_text(m.received_at))),
            member("unread", boolean(m.unread)),
            member("attachments", atts),
        ],
    );
    proof {
        assert(to@ == jstrings(m@.to)) by {
            assert(to@->Array_0 =~= jstrings(m@.to)->Array_0);
        }
        assert(atts@ == Json::Array(m@.attachments.map_values(|a: AttachmentView| attachment_json(a)))) by {
            assert(atts@->Array_0 =~= m@.attachments.map_values(|a: AttachmentView| attachment_json(a)));
        }
        assert(r@->Object_0 =~= message_doc_json(m@)->Object_0);
    }
    r
}

/// Which members a message summary carries: those of a folder listing; of a
/// search in one folder (with the flags); of a search over all folders (with
/// the folder too).
pub enum ItemShape {
    Listing,
    Search,
    Global,
}

/// A message summary, as the listing and the searches write it.
pub open spec fn item_json(m: MessageView, shape: ItemShape) -> Json {
    let head = match shape {
        ItemShape::Global => seq![("id"@, Json::Str(oid_hex(m.id))), ("folder_code"@, Json::Str(m.folder_code))],
        _ => seq![("id"@, Json::Str(oid_hex(m.id)))],
    };
    let body = seq![
        ("from"@, Json::Str(m.from)),
        ("to"@, jstrings(m.to)),
        ("subject"@, Json::Str(m.subject)),
        ("snippet"@, jopt_text(m.snippet)),
        ("received_at"@, Json::Str(rfc3339_of(m.received_at))),
        ("unread"@, Json::Bool(m.unread)),
    ];
    let tail = match shape {
        ItemShape::Listing => Seq::empty(),
        _ => seq![("starred"@, Json::Bool(m.starred)), ("important"@, Json::Bool(m.important))],
    };
    Json::Object(head + body + tail)
}

/// Writes a message summary as [`item_json`] says.
pub fn message_item(m: &Message, shape: &ItemShape) -> (r: JsonValue)
    requires
        in_calendar_range(m.received_at),
    ensures
        r@ == item_json(m@, *shape),
{
    let mut members: Vec<(String, JsonValue)> = Vec::new();
    members.push(member("id", JsonValue::Str(oid_to_hex(&m.id))));
    if let ItemShape::Global = shape {
        members.push(member("folder_code", text(m.folder_code.as_str())));
    }
    let to = text_array(&m.to);
    members.push(member("from", text(m.from.as_str())));
    members.push(member("to", to));
    members.push(member("subject", text(m.subject.as_str())));
    members.push(member("snippet", opt_text(&m.snippet)));
    members.push(member("received_at", JsonValue::Str(rfc3339_text(m.received_at))));
    members.push(member("unread", boolean(m.unread)));
    match shape {
        ItemShape::Listing => {},
        _ => {
            members.push(member("starred", boolean(m.starred)));
            members.push(member("important", boolean(m.important)));
        },
    }
    let r = obj(members);
    proof {
        assert(to@->Array_0 =~= jstrings(m@.to)->Array_0);
        assert(r@->Object_0 =~= item_json(m@, *shape)->Object_0);
    }
    r
}

/// Summaries of each message, in order.
pub open spec fn items_json(ms: Seq<Message>, shape: ItemShape) -> Seq<Json> {
    ms.map_values(|m: Message| item_json(m@, shape))
}

/// Whether every message's time can be written as a date.
pub open spec fn all_datable(ms: Seq<Message>) -> bool {
    forall|i: int| 0 <= i < ms.len() ==> in_calendar_range(#[trigger] ms[i].received_at)
}

/// Whether every message's time can be written as a date.
pub fn check_datable(ms: &Vec<Message>) -> (r: bool)
    ensures
        r == all_datable(ms@),
{
    let mut i: usize = 0;
    while i < ms.len()
        invariant
            i <= ms.len(),
            forall|j: int| 0 <= j < i ==> in_calendar_range(#[trigger] ms@[j].received_at),
        decreases ms.len() - i,
    {
        if !fits_calendar(ms[i].received_at) {
            return false;
        }
        i += 1;
    }
    true
}

/// Writes the summaries of each message, in order.
pub fn message_items(ms: &Vec<Message>, shape: &ItemShape) -> (r: JsonValue)
    requires
        all_datable(ms@),
    ensures
        r@ == Json::Array(items_json(ms@, *shape)),
{
    let mut items: Vec<JsonValue> = Vec::new();
    let mut i: usize = 0;
    while i < ms.len()
        invariant
            i <= ms.len(),
            all_datable(ms@),
            items@.len() == i,
            forall|j: int| 0 <= j < i ==> (#[trigger] items@[j])@ == item_json(ms@[j]@, *shape),
        decreases ms.len() - i,
    {
        items.push(message_item(&ms[i], shape));
        i += 1;
    }
    let r = arr(items);
    assert(r@->Array_0 =~= items_json(ms@, *shape));
    r
}

/// A folder-list row as written in answers.
pub open spec fn list_row_json(f: MbListFolderDto) -> Json {
    Json::Object(seq![("code"@, Json::Str(f.code@)), ("name"@, Json::Str(f.name@)), ("unread"@, juint(f.unread)), ("total"@, juint(f.total))])
}

/// Writes the folder-list rows, in order.
pub fn list_rows(v: &Vec<MbListFolderDto>) -> (r: JsonValue)
    ensures
        r@ == Json::Array(v@.map_values(|f: MbListFolderDto| list_row_json(f))),
{
    let mut items: Vec<JsonValue> = Vec::new();
    let mut i: usize = 0;
    while i < v.len()
        invariant
            i <= v.len(),
            items@.len() == i,
            forall|j: int| 0 <= j < i ==> (#[trigger] items@[j])@ == list_row_json(v@[j]),
        decreases v.len() - i,
    {
        let f = &v[i];
        let row = obj(vec![member("code", text(f.code.as_str())), member("name", text(f.name.as_str())), member("unread", uint(f.unread)), member("total", uint(f.total))]);
        assert(row@->Object_0 =~= list_row_json(*f)->Object_0);
        items.push(row);
        i += 1;
    }
    let r = arr(items);
    assert(r@->Array_0 =~= v@.map_values(|f: MbListFolderDto| list_row_json(f)));
    r
}

/// A folder's details as written in answers.
pub open spec fn folder_info_json(f: MbFolderInfoDto) -> Json {
    Json::Object(
        seq![
            ("code"@, Json::Str(f.code@)),
            ("name"@, Json::Str(f.name@)),
            ("unread"@, juint(f.unread)),
            ("total"@, juint(f.total)),
            ("latest_subject"@, jopt_text(ostr(f.latest_subject))),
            ("latest_from"@, jopt_text(ostr(f.latest_from))),
            ("latest_received_at"@, jopt_text(ostr(f.latest_received_at))),
        ],
    )
}

/// Writes a folder's details.
pub fn folder_info_value(f: &MbFolderInfoDto) -> (r: JsonValue)
    ensures
        r@ == folder_info_json(*f),
{
    let r = obj(
        vec![
            member("code", text(f.code.as_str())),
            member("name", text(f.name.as_str())),
            member("unread", uint(f.unread)),
            member("total", uint(f.total)),
            member("latest_subject", opt_text(&f.latest_subject)),
            member("latest_from", opt_text(&f.latest_from)),
            member("latest_received_at", opt_text(&f.latest_received_at)),
        ],
    );
    assert(r@->Object_0 =~= folder_info_json(*f)->Object_0);
    r
}

} // verus!

verus! {

/// The document `MSG_GET` returns describes the stored message field by
/// field: its whole body, unchanged whatever its length (null only when no
/// body is stored), beside the snippet, which is kept separately; its sender,
/// recipients, subject, folder, time and read state as stored.
pub proof fn law_message_doc_keeps_body(m: MessageView)
    ensures
        jget(message_doc_json(m), "body"@) == Some(jopt_text(m.body)),
        m.body matches Some(b) ==> jget(message_doc_json(m), "body"@) == Some(Json::Str(b)),
        jget(message_doc_json(m), "snippet"@) == Some(jopt_text(m.snippet)),
        jget(message_doc_json(m), "id"@) == Some(Json::Str(oid_hex(m.id))),
        jget(message_doc_json(m), "folder_code"@) == Some(Json::Str(m.folder_code)),
        jget(message_doc_json(m), "from"@) == Some(Json::Str(m.from)),
        jget(message_doc_json(m), "to"@) == Some(jstrings(m.to)),
        jget(message_doc_json(m), "subject"@) == Some(Json::Str(m.subject)),
        jget(message_doc_json(m), "received_at"@) == Some(Json::Str(rfc3339_of(m.received_at))),
        jget(message_doc_json(m), "unread"@) == Some(Json::Bool(m.unread)),
{
    reveal_strlit("id");
    reveal_strlit("folder_code");
    reveal_strlit("from");
    reveal_strlit("to");
    reveal_strlit("subject");
    reveal_strlit("snippet");
    reveal_strlit("body");
    reveal_strlit("received_at");
    reveal_strlit("unread");
    let f = message_doc_json(m)->Object_0;
    assert(f[0].0.len() != "folder_code"@.len());
    assert(f[0].0.len() != "from"@.len());
    assert(f[1].0.len() != "from"@.len());
    assert(f[0].0[0] != "to"@[0]);
    assert(f[1].0.len() != "to"@.len());
    assert(f[2].0.len() != "to"@.len());
    assert(f[0].0.len() != "subject"@.len());
    assert(f[1].0.len() != "subject"@.len());
    assert(f[2].0.len() != "subject"@.len());
    assert(f[3].0.len() != "subject"@.len());
    assert(f[0].0.len() != "snippet"@.len());
    assert(f[1].0.len() != "snippet"@.len());
    assert(f[2].0.len() != "snippet"@.len());
    assert(f[3].0.len() != "snippet"@.len());
    assert(f[4].0[1] != "snippet"@[1]);
    assert(f[0].0.len() != "body"@.len());
    assert(f[1].0.len() != "body"@.len());
    assert(f[2].0[0] != "body"@[0]);
    assert(f[3].0.len() != "body"@.len());
    assert(f[4].0.len() != "body"@.len());
    assert(f[5].0.len() != "body"@.len());
    assert(f[0].0.len() != "received_at"@.len());
    assert(f[1].0[0] != "received_at"@[0]);
    assert(f[2].0.len() != "received_at"@.len());
    assert(f[3].0.len() != "received_at"@.len());
    assert(f[4].0.len() != "received_at"@.len());
    assert(f[5].0.len() != "received_at"@.len());
    assert(f[6].0.len() != "received_at"@.len());
    assert(f[0].0.len() != "unread"@.len());
    assert(f[1].0.len() != "unread"@.len());
    assert(f[2].0.len() != "unread"@.len());
    assert(f[3].0.len() != "unread"@.len());
    assert(f[4].0.len() != "unread"@.len());
    assert(f[5].0.len() != "unread"@.len());
    assert(f[6].0.len() != "unread"@.len());
    assert(f[7].0.len() != "unread"@.len());
    reveal_with_fuel(crate::json::lookup, 10);
}

/// The folder document of `MB_LIST` and `MB_INFO` reports the unread count as
/// `unread` and the count of all the folder's messages as `total`, as the
/// store gave them (so `unread` never exceeds `total` when the store's counts
/// agree), beside the folder's code and name and its newest message's subject,
/// sender and time.
pub proof fn law_folder_info_counts(f: MbFolderInfoDto)
    ensures
        jget(folder_info_json(f), "unread"@) == Some(juint(f.unread)),
        jget(folder_info_json(f), "total"@) == Some(juint(f.total)),
        f.unread <= f.total ==> (jget(folder_info_json(f), "unread"@) matches Some(Json::Number(crate::json::JNum::PosInt(u)))
            && jget(folder_info_json(f), "total"@) matches Some(Json::Number(crate::json::JNum::PosInt(t))) && u <= t),
        jget(folder_info_json(f), "code"@) == Some(Json::Str(f.code@)),
        jget(folder_info_json(f), "name"@) == Some(Json::Str(f.name@)),
        jget(folder_info_json(f), "latest_subject"@) == Some(jopt_text(ostr(f.latest_subject))),
        jget(folder_info_json(f), "latest_from"@) == Some(jopt_text(ostr(f.latest_from))),
        jget(folder_info_json(f), "latest_received_at"@) == Some(jopt_text(ostr(f.latest_received_at))),
{
    reveal_strlit("code");
    reveal_strlit("name");
    reveal_strlit("unread");
    reveal_strlit("total");
    reveal_strlit("latest_subject");
    reveal_strlit("latest_from");
    reveal_strlit("latest_received_at");
    let g = folder_info_json(f)->Object_0;
    assert(g[0].0[0] != "name"@[0]);
    assert(g[0].0.len() != "unread"@.len());
    assert(g[1].0.len() != "unread"@.len());
    assert(g[0].0.len() != "total"@.len());
    assert(g[1].0.len() != "total"@.len());
    assert(g[2].0.len() != "total"@.len());
    assert(g[0].0.len() != "latest_subject"@.len());
    assert(g[1].0.len() != "latest_subject"@.len());
    assert(g[2].0.len() != "latest_subject"@.len());
    assert(g[3].0.len() != "latest_subject"@.len());
    assert(g[0].0.len() != "latest_from"@.len());
    assert(g[1].0.len() != "latest_from"@.len());
    assert(g[2].0.len() != "latest_from"@.len());
    assert(g[3].0.len() != "latest_from"@.len());
    assert(g[4].0.len() != "latest_from"@.len());
    assert(g[0].0.len() != "latest_received_at"@.len());
    assert(g[1].0.len() != "latest_received_at"@.len());
    assert(g[2].0.len() != "latest_received_at"@.len());
    assert(g[3].0.len() != "latest_received_at"@.len());
    assert(g[4].0.len() != "latest_received_at"@.len());
    assert(g[5].0.len() != "latest_received_at"@.len());
    reveal_with_fuel(crate::json::lookup, 8);
}

} // verus!
