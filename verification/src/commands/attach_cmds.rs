//! Attachment commands: ATTACH_UPLOAD_INIT announces an upload, whose bytes
//! then arrive on a stream of their own; ATTACH_GET reports a completed one.
use vstd::prelude::*;
use crate::comm::{Request, Response, ResponseView};
use crate::commands::gate::{require_session, resolve_session, session_gate, token_gate};
use crate::json::{Json, get_str, get_u64, juint, member, obj, str_field, text, u64_field, uint};
use crate::oid::Oid;
use crate::records::PendingUpload;
use crate::session::{SessionStore, SessionView};
use crate::token::{all_alnum, gen_upload_id};

verus! {

/// A checked `ATTACH_UPLOAD_INIT`: the owner, a fresh upload id and what the
/// upload will hold.
pub struct UploadTask {
    pub user_id: Oid,
    pub upload_id: String,
    pub filename: String,
    pub mime_type: String,
    pub size_bytes: u64,
}

/// `ATTACH_UPLOAD_INIT`: a session, then a non-empty `filename`; the type
/// defaults to `application/octet-stream` and the size to 0.
pub open spec fn upload_outcome(data: Json, store: Map<Seq<char>, SessionView>, token: Seq<char>) -> Result<(SessionView, Seq<char>, Seq<char>, u64), ResponseView> {
    match token_gate("ATTACH_UPLOAD_INIT"@, store, token) {
        Err(e) => Err(e),
        Ok(s) => match str_field(data, "filename"@) {
            Some(f) => if f.len() > 0 {
                Ok((
                    s,
                    f,
                    match str_field(data, "mime_type"@) {
                        Some(m) => m,
                        None => "application/octet-stream"@,
                    },
                    match u64_field(data, "size_bytes"@) {
                        Some(n) => n,
                        None => 0,
                    },
                ))
            } else {
                Err(ResponseView::err("ATTACH_UPLOAD_INIT"@, "Missing filename"@))
            },
            None => Err(ResponseView::err("ATTACH_UPLOAD_INIT"@, "Missing filename"@)),
        },
    }
}

/// `ATTACH_UPLOAD_INIT`: checks the request and draws the upload id:
/// `upl_` and 16 random letters and digits.
pub fn plan_attach_upload_init(req: &Request, sessions: &SessionStore, token: &str) -> (r: Result<UploadTask, Response>)
    ensures
        match (r, upload_outcome(req.data@, sessions@, token@)) {
            (Ok(t), Ok((s, filename, mime_type, size))) => {
                &&& s.user_id == Some(t.user_id.bytes@)
                &&& t.filename@ == filename && t.mime_type@ == mime_type && t.size_bytes == size
                &&& t.upload_id@.len() == 20 && t.upload_id@.take(4) == "upl_"@ && all_alnum(t.upload_id@.skip(4))
            },
            (Err(e), Err(v)) => e@ == v,
            _ => false,
        },
{
    let user = match require_session("ATTACH_UPLOAD_INIT", sessions, token) {
        Ok(u) => u,
        Err(e) => return Err(e),
    };
    let filename = match get_str(&req.data, "filename") {
        Some(f) => if !f.is_empty() { f.to_owned() } else { return Err(Response::err("ATTACH_UPLOAD_INIT", "Missing filename")) },
        None => return Err(Response::err("ATTACH_UPLOAD_INIT", "Missing filename")),
    };
    let mime_type = match get_str(&req.data, "mime_type") {
        Some(m) => m.to_owned(),
        None => "application/octet-stream".to_owned(),
    };
    let size_bytes = match get_u64(&req.data, "size_bytes") {
        Some(n) => n,
        None => 0,
    };
    Ok(UploadTask { user_id: user.user_id, upload_id: gen_upload_id(), filename, mime_type, size_bytes })
}

/// The answer to `ATTACH_UPLOAD_INIT`, once the store recorded the upload or failed.
pub open spec fn upload_reply_view(upload_id: Seq<char>, filename: Seq<char>, mime_type: Seq<char>, size: u64, stored: Result<(), ()>) -> ResponseView {
    match stored {
        Err(_) => ResponseView::err("ATTACH_UPLOAD_INIT"@, "Database error"@),
        Ok(_) => ResponseView::ok("ATTACH_UPLOAD_INIT"@).with_msg("Attachment upload initialized"@).with_data(
            Json::Object(
                seq![
                    (
                        "upload"@,
                        Json::Object(
                            seq![
                                ("upload_id"@, Json::Str(upload_id)),
                                ("filename"@, Json::Str(filename)),
                                ("mime_type"@, Json::Str(mime_type)),
                                ("size_bytes"@, juint(size)),
                            ],
                        ),
                    ),
                ],
            ),
        ),
    }
}

/// `ATTACH_UPLOAD_INIT`: the answer.
pub fn attach_upload_init_reply(task: &UploadTask, stored: Result<(), ()>) -> (r: Response)
    ensures
        r@ == upload_reply_view(task.upload_id@, task.filename@, task.mime_type@, task.size_bytes, stored),
{
    match stored {
        Err(_) => Response::err("ATTACH_UPLOAD_INIT", "Database error"),
        Ok(_) => {
            let upload = obj(
                vec![
                    member("upload_id", text(task.upload_id.as_str())),
                    member("filename", text(task.filename.as_str())),
                    member("mime_type", text(task.mime_type.as_str())),
                    member("size_bytes", uint(task.size_bytes)),
                ],
            );
            let data = obj(vec![member("upload", upload)]);
            proof {
                assert(upload@->Object_0 =~= seq![
                    ("upload_id"@, Json::Str(task.upload_id@)),
                    ("filename"@, Json::Str(task.filename@)),
                    ("mime_type"@, Json::Str(task.mime_type@)),
                    ("size_bytes"@, juint(task.size_bytes)),
                ]);
                assert(data@->Object_0 =~= seq![("upload"@, upload@)]);
            }
            Response::ok("ATTACH_UPLOAD_INIT").with_msg("Attachment upload initialized").with_data(data)
        },
    }
}

/// `ATTACH_GET`: a token, then a non-empty `attachment_id`, then an
/// authenticated session.
pub open spec fn attach_get_outcome(data: Json, store: Map<Seq<char>, SessionView>, token: Seq<char>) -> Result<(SessionView, Seq<char>), ResponseView> {
    if token.len() == 0 {
        Err(ResponseView::err("ATTACH_GET"@, "Missing session token"@))
    } else {
        match str_field(data, "attachment_id"@) {
            Some(a) => if a.len() > 0 {
                match session_gate("ATTACH_GET"@, store, token, true) {
                    Err(e) => Err(e),
                    Ok(s) => Ok((s, a)),
                }
            } else {
                Err(ResponseView::err("ATTACH_GET"@, "Missing attachment_id"@))
            },
            None => Err(ResponseView::err("ATTACH_GET"@, "Missing attachment_id"@)),
        }
    }
}

/// `ATTACH_GET`: checks the request; gives the owner and the upload id to look up.
pub fn plan_attach_get(req: &Request, sessions: &SessionStore, token: &str) -> (r: Result<(Oid, String), Response>)
    ensures
        match (r, attach_get_outcome(req.data@, sessions@, token@)) {
            (Ok((u, a)), Ok((s, id))) => s.user_id == Some(u.bytes@) && a@ == id,
            (Err(e), Err(v)) => e@ == v,
            _ => false,
        },
{
    if token.is_empty() {
        return Err(Response::err("ATTACH_GET", "Missing session token"));
    }
    let id = match get_str(&req.data, "attachment_id") {
        Some(a) => if !a.is_empty() { a } else { return Err(Response::err("ATTACH_GET", "Missing attachment_id")) },
        None => return Err(Response::err("ATTACH_GET", "Missing attachment_id")),
    };
    match resolve_session("ATTACH_GET", sessions, token, true) {
        Ok(u) => Ok((u.user_id, id.to_owned())),
        Err(e) => Err(e),
    }
}

/// The answer to `ATTACH_GET`, given the user's upload the store found.
pub open spec fn attach_get_reply_view(found: Result<Option<PendingUpload>, ()>) -> ResponseView {
    match found {
        Err(_) => ResponseView::err("ATTACH_GET"@, "Database error"@),
        Ok(None) => ResponseView::err("ATTACH_GET"@, "Attachment not found"@),
        Ok(Some(p)) => if !p.completed {
            ResponseView::err("ATTACH_GET"@, "Attachment upload not completed"@)
        } else {
            ResponseView::ok("ATTACH_GET"@).with_msg("Attachment fetched"@).with_data(
                Json::Object(
                    seq![
                        ("attachment_id"@, Json::Str(p.upload_id@)),
                        ("filename"@, Json::Str(p.filename@)),
                        ("mime_type"@, Json::Str(p.mime_type@)),
                        ("size_bytes"@, juint(p.size_bytes)),
                    ],
                ),
            )
        },
    }
}

/// `ATTACH_GET`: the answer.
pub fn attach_get_reply(found: Result<Option<PendingUpload>, ()>) -> (r: Response)
    ensures
        r@ == attach_get_reply_view(found),
{
    match found {
        Err(_) => Response::err("ATTACH_GET", "Database error"),
        Ok(None) => Response::err("ATTACH_GET", "Attachment not found"),
        Ok(Some(p)) => {
            if !p.completed {
                return Response::err("ATTACH_GET", "Attachment upload not completed");
            }
            let data = obj(
                vec![
                    member("attachment_id", text(p.upload_id.as_str())),
                    member("filename", text(p.filename.as_str())),
                    member("mime_type", text(p.mime_type.as_str())),
                    member("size_bytes", uint(p.size_bytes)),
                ],
            );
            proof {
                assert(data@->Object_0 =~= seq![
                    ("attachment_id"@, Json::Str(p.upload_id@)),
                    ("filename"@, Json::Str(p.filename@)),
                    ("mime_type"@, Json::Str(p.mime_type@)),
                    ("size_bytes"@, juint(p.size_bytes)),
                ]);
            }
            Response::ok("ATTACH_GET").with_msg("Attachment fetched").with_data(data)
        },
    }
}

} // verus!
