//! The other documents the server keeps: users, pending uploads and
//! preferences, and what is derived from them.
use vstd::prelude::*;
use crate::mailbox::AttachmentMeta;
use crate::oid::Oid;
use crate::text::concat;

verus! {

/// A registered user. `created_at` is in milliseconds after the epoch.
pub struct UserDoc {
    pub id: Oid,
    pub email: String,
    pub name: Option<String>,
    pub avatar_url: Option<String>,
    pub timezone: Option<String>,
    pub signature: Option<String>,
    pub created_at: i64,
}

/// The user that a first sign-in creates: just the address and the time.
pub fn new_user(id: Oid, email: &str, now: i64) -> (u: UserDoc)
    ensures
        u.id == id,
        u.email@ == email@,
        u.name is None && u.avatar_url is None && u.timezone is None && u.signature is None,
        u.created_at == now,
{
    UserDoc {
        id,
        email: email.to_owned(),
        name: None,
        avatar_url: None,
        timezone: None,
        signature: None,
        created_at: now,
    }
}

/// An attachment announced by `ATTACH_UPLOAD_INIT`; `completed` once its
/// bytes are stored.
pub struct PendingUpload {
    pub id: Oid,
    pub user_id: Oid,
    pub upload_id: String,
    pub filename: String,
    pub mime_type: String,
    pub size_bytes: u64,
    pub created_at: i64,
    pub completed: bool,
}

/// A newly announced upload: not completed.
pub fn new_pending_upload(
    id: Oid,
    user_id: Oid,
    upload_id: &str,
    filename: &str,
    mime_type: &str,
    size_bytes: u64,
    now: i64,
) -> (p: PendingUpload)
    ensures
        p.id == id,
        p.user_id == user_id,
        p.upload_id@ == upload_id@,
        p.filename@ == filename@,
        p.mime_type@ == mime_type@,
        p.size_bytes == size_bytes,
        p.created_at == now,
        !p.completed,
{
    PendingUpload {
        id,
        user_id,
        upload_id: upload_id.to_owned(),
        filename: filename.to_owned(),
        mime_type: mime_type.to_owned(),
        size_bytes,
        created_at: now,
        completed: false,
    }
}

/// The name under which an upload's bytes are stored: `attach:` and the upload id.
pub open spec fn stored_file_name(upload_id: Seq<char>) -> Seq<char> {
    "attach:"@ + upload_id
}

/// The stored file name of an upload.
pub fn file_name_of_upload(upload_id: &str) -> (r: String)
    ensures
        r@ == stored_file_name(upload_id@),
{
    concat("attach:", upload_id)
}

/// What a message records of the upload `upload_id`: only a completed upload
/// is attached, under its stored file name.
pub fn attachment_of_upload(upload_id: &str, pending: &PendingUpload) -> (r: Option<AttachmentMeta>)
    ensures
        match r {
            Some(a) => pending.completed && a.id@ == upload_id@ && a.filename@ == pending.filename@
                && a.mime_type@ == pending.mime_type@ && a.size_bytes == pending.size_bytes
                && a.gridfs_id@ == stored_file_name(upload_id@),
            None => !pending.completed,
        },
{
    if pending.completed {
        Some(AttachmentMeta {
            id: upload_id.to_owned(),
            filename: pending.filename.clone(),
            mime_type: pending.mime_type.clone(),
            size_bytes: pending.size_bytes,
            gridfs_id: file_name_of_upload(upload_id),
        })
    } else {
        None
    }
}

/// A user's stored preferences.
pub struct PreferencesDoc {
    pub user_id: Oid,
    pub theme: String,
    pub notifications_enabled: bool,
    pub language: String,
}

/// The preferences a user has before setting any.
pub open spec fn default_theme() -> Seq<char> {
    "light"@
}

pub open spec fn default_language() -> Seq<char> {
    "en"@
}

/// The preferences a request sets, the defaults filling what it leaves out.
pub fn preferences_of(user_id: Oid, theme: Option<&str>, notifications_enabled: Option<bool>, language: Option<&str>) -> (p: PreferencesDoc)
    ensures
        p.user_id == user_id,
        p.theme@ == match theme { Some(t) => t@, None => default_theme() },
        p.notifications_enabled == match notifications_enabled { Some(b) => b, None => true },
        p.language@ == match language { Some(l) => l@, None => default_language() },
{
    PreferencesDoc {
        user_id,
        theme: match theme {
            Some(t) => t.to_owned(),
            None => "light".to_owned(),
        },
        notifications_enabled: match notifications_enabled {
            Some(b) => b,
            None => true,
        },
        language: match language {
            Some(l) => l.to_owned(),
            None => "en".to_owned(),
        },
    }
}

/// A user's profile fields, each as the request gives it.
pub struct ProfileUpdate {
    pub name: Option<String>,
    pub avatar_url: Option<String>,
    pub timezone: Option<String>,
    pub signature: Option<String>,
}

impl ProfileUpdate {
    /// Whether the update sets nothing.
    pub fn is_empty(&self) -> (r: bool)
        ensures
            r == (self.name is None && self.avatar_url is None && self.timezone is None && self.signature is None),
    {
        self.name.is_none() && self.avatar_url.is_none() && self.timezone.is_none() && self.signature.is_none()
    }
}

} // verus!
