//! What the server decides on its streams. The control stream carries one
//! command per read and a heartbeat on every tick; an attachment stream
//! starts with one JSON header line, and the bytes after it are the file.
use vstd::prelude::*;
use vstd::utf8::{decode_utf8, valid_utf8};
use crate::json::{JNum, Json, JsonNumber, JsonValue, get_str, get_u64, str_field, u64_field};
use crate::text::{chars_of, concat, find_char_from, sub_string, trim, unicode_trim};

verus! {

/// Calls `std::str::from_utf8`: it succeeds exactly on valid UTF-8, with the
/// characters the bytes encode.
#[verifier::external_body]
pub(crate) fn decode_text(bytes: &[u8]) -> (r: Option<&str>)
    ensures
        r is Some <==> valid_utf8(bytes@),
        r matches Some(s) ==> s@ == decode_utf8(bytes@),
{
    match std::str::from_utf8(bytes) {
        Ok(s) => Some(s),
        Err(_) => None,
    }
}

/// What reading one more chunk of an attachment stream's header gives.
pub enum HeaderStep {
    /// The chunk is not valid UTF-8 and is dropped; the text so far stays.
    Skip,
    /// No line end yet: the text so far.
    More(String),
    /// The header line, trimmed, and the text after its line end.
    Line(String, String),
}

/// Whether `p` is the position of the first line end in `t`.
pub open spec fn first_line_end(t: Seq<char>, p: int) -> bool {
    0 <= p < t.len() && t[p] == '\n' && forall|k: int| 0 <= k < p ==> t[k] != '\n'
}

/// Reads a chunk into the header text so far, as [`HeaderStep`] says.
pub fn header_step(pending: &str, chunk: &[u8]) -> (r: HeaderStep)
    ensures
        match r {
            HeaderStep::Skip => !valid_utf8(chunk@),
            HeaderStep::More(t) => valid_utf8(chunk@) && t@ == pending@ + decode_utf8(chunk@) && !t@.contains('\n'),
            HeaderStep::Line(line, rest) => valid_utf8(chunk@) && exists|p: int| {
                &&& #[trigger] first_line_end(pending@ + decode_utf8(chunk@), p)
                &&& line@ == unicode_trim((pending@ + decode_utf8(chunk@)).take(p))
                &&& rest@ == (pending@ + decode_utf8(chunk@)).skip(p + 1)
            },
        },
{
    let text = match decode_text(chunk) {
        Some(s) => s,
        None => return HeaderStep::Skip,
    };
    let joined = concat(pending, text);
    let v = chars_of(joined.as_str());
    match find_char_from(&v, '\n', 0) {
        None => {
            assert(!joined@.contains('\n')) by {
                if joined@.contains('\n') {
                    let k = choose|k: int| 0 <= k < joined@.len() && joined@[k] == '\n';
                    assert(v@[k] == '\n');
                }
            }
            HeaderStep::More(joined)
        },
        Some(p) => {
            let head = sub_string(&v, 0, p);
            let rest = sub_string(&v, p + 1, v.len());
            let line = trim(head.as_str()).to_owned();
            proof {
                let t = pending@ + decode_utf8(chunk@);
                assert(v@ == t);
                assert(head@ =~= t.take(p as int));
                assert(rest@ =~= t.skip(p + 1));
                assert(first_line_end(t, p as int));
            }
            HeaderStep::Line(line, rest)
        },
    }
}

/// What happens on the control stream.
pub enum ControlEvent {
    /// The heartbeat timer fired.
    Tick,
    /// A read returned these bytes.
    Read(Vec<u8>),
    /// The stream ended or failed.
    Finished,
}

/// What the server does about it.
pub enum ControlAction {
    /// Send a heartbeat.
    SendHeartbeat,
    /// Answer this command text.
    Handle(String),
    /// Drop the bytes (not UTF-8) and go on.
    Ignore,
    /// Stop serving the stream.
    Close,
}

/// The control stream's rule: a tick sends a heartbeat; an empty read or the
/// end stops; bytes that are not UTF-8 are dropped; any other read is one
/// command, trimmed.
pub fn control_step(ev: ControlEvent) -> (r: ControlAction)
    ensures
        match ev {
            ControlEvent::Tick => r is SendHeartbeat,
            ControlEvent::Finished => r is Close,
            ControlEvent::Read(b) => if b@.len() == 0 {
                r is Close
            } else if !valid_utf8(b@) {
                r is Ignore
            } else {
                r matches ControlAction::Handle(t) && t@ == unicode_trim(decode_utf8(b@))
            },
        },
{
    match ev {
        ControlEvent::Tick => ControlAction::SendHeartbeat,
        ControlEvent::Finished => ControlAction::Close,
        ControlEvent::Read(b) => {
            if b.len() == 0 {
                return ControlAction::Close;
            }
            match decode_text(b.as_slice()) {
                Some(t) => ControlAction::Handle(trim(t).to_owned()),
                None => ControlAction::Ignore,
            }
        },
    }
}

} // verus!

verus! {

/// Splitting at the header's line end loses nothing: the header text, the
/// line end and the rest make up the text read.
pub proof fn law_header_split_is_lossless(t: Seq<char>, p: int)
    requires
        first_line_end(t, p),
    ensures
        t.take(p) + seq!['\n'] + t.skip(p + 1) == t,
{
    assert(t.take(p) + seq!['\n'] + t.skip(p + 1) =~= t);
}

} // verus!

verus! {

/// The header line of an attachment stream, read as JSON.
pub struct AttachHeader {
    pub upload_id: String,
    pub filename: String,
    pub mime_type: String,
    pub size_bytes: u64,
}

/// What a header must hold: the string members `upload_id`, `filename` and
/// `mime_type` and the unsigned integer `size_bytes` (other members are
/// ignored), or exactly those four values in that order as an array.
pub open spec fn header_of(v: Json) -> Option<(Seq<char>, Seq<char>, Seq<char>, u64)> {
    match v {
        Json::Object(_) => match (str_field(v, "upload_id"@), str_field(v, "filename"@), str_field(v, "mime_type"@), u64_field(v, "size_bytes"@)) {
            (Some(a), Some(b), Some(c), Some(d)) => Some((a, b, c, d)),
            _ => None,
        },
        Json::Array(items) => if items.len() == 4 {
            match (items[0], items[1], items[2], items[3]) {
                (Json::Str(a), Json::Str(b), Json::Str(c), Json::Number(JNum::PosInt(d))) => Some((a, b, c, d)),
                _ => None,
            }
        } else {
            None
        },
        _ => None,
    }
}

/// Reads an attachment header as [`header_of`] says.
pub fn attach_header(v: &JsonValue) -> (r: Option<AttachHeader>)
    ensures
        match (r, header_of(v@)) {
            (Some(h), Some((a, b, c, d))) => h.upload_id@ == a && h.filename@ == b && h.mime_type@ == c && h.size_bytes == d,
            (None, None) => true,
            _ => false,
        },
{
    match v {
        JsonValue::Object(_) => {
            let a = get_str(v, "upload_id");
            let b = get_str(v, "filename");
            let c = get_str(v, "mime_type");
            let d = get_u64(v, "size_bytes");
            match (a, b, c, d) {
                (Some(a), Some(b), Some(c), Some(d)) => Some(AttachHeader { upload_id: a.to_owned(), filename: b.to_owned(), mime_type: c.to_owned(), size_bytes: d }),
                _ => None,
            }
        },
        JsonValue::Array(items) => {
            if items.len() != 4 {
                return None;
            }
            proof {
                assert(v@->Array_0[0] == items@[0]@);
                assert(v@->Array_0[1] == items@[1]@);
                assert(v@->Array_0[2] == items@[2]@);
                assert(v@->Array_0[3] == items@[3]@);
            }
            match (&items[0], &items[1], &items[2], &items[3]) {
                (JsonValue::Str(a), JsonValue::Str(b), JsonValue::Str(c), JsonValue::Number(JsonNumber::PosInt(d))) => Some(
                    AttachHeader { upload_id: a.clone(), filename: b.clone(), mime_type: c.clone(), size_bytes: *d },
                ),
                _ => None,
            }
        },
        _ => None,
    }
}

} // verus!
