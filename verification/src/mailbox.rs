//! Folders and messages of the mail store, and what the store's operations
//! compute on either side of the database: the documents an insert writes,
//! the filters and paging a query sends, and the summaries it reports.
use vstd::prelude::*;
use crate::comm::{ostr, clone_opt};
use crate::oid::{Oid, same_oid};
use crate::text::{first_chars, take_chars};
use crate::timefmt::{in_calendar_range, rfc3339_of, rfc3339_text};

verus! {

/// How many characters of a body a message keeps as its snippet.
pub const SNIPPET_CHARS: usize = 100;

/// What a message records of one attachment.
pub struct AttachmentMeta {
    pub id: String,
    pub filename: String,
    pub mime_type: String,
    pub size_bytes: u64,
    pub gridfs_id: String,
}

pub struct AttachmentView {
    pub id: Seq<char>,
    pub filename: Seq<char>,
    pub mime_type: Seq<char>,
    pub size_bytes: u64,
    pub gridfs_id: Seq<char>,
}

impl View for AttachmentMeta {
    type V = AttachmentView;

    open spec fn view(&self) -> AttachmentView {
        AttachmentView {
            id: self.id@,
            filename: self.filename@,
            mime_type: self.mime_type@,
            size_bytes: self.size_bytes,
            gridfs_id: self.gridfs_id@,
        }
    }
}

impl AttachmentMeta {
    /// A copy of the record.
    pub fn duplicate(&self) -> (r: AttachmentMeta)
        ensures
            r@ == self@,
    {
        AttachmentMeta {
            id: self.id.clone(),
            filename: self.filename.clone(),
            mime_type: self.mime_type.clone(),
            size_bytes: self.size_bytes,
            gridfs_id: self.gridfs_id.clone(),
        }
    }
}

/// The characters of each string.
pub open spec fn strings_view(v: Seq<String>) -> Seq<Seq<char>> {
    v.map_values(|s: String| s@)
}

/// The model of each attachment record.
pub open spec fn attachments_view(v: Seq<AttachmentMeta>) -> Seq<AttachmentView> {
    v.map_values(|a: AttachmentMeta| a@)
}

/// A copy of a list of strings.
pub fn copy_strings(v: &Vec<String>) -> (r: Vec<String>)
    ensures
        strings_view(r@) == strings_view(v@),
{
    let mut out: Vec<String> = Vec::new();
    let mut i: usize = 0;
    while i < v.len()
        invariant
            i <= v.len(),
            out@.len() == i,
            forall|j: int| 0 <= j < i ==> (#[trigger] out@[j])@ == v@[j]@,
        decreases v.len() - i,
    {
        out.push(v[i].clone());
        i += 1;
    }
    assert(strings_view(out@) =~= strings_view(v@));
    out
}

/// A copy of a list of attachment records.
pub fn copy_attachments(v: &Vec<AttachmentMeta>) -> (r: Vec<AttachmentMeta>)
    ensures
        attachments_view(r@) == attachments_view(v@),
{
    let mut out: Vec<AttachmentMeta> = Vec::new();
    let mut i: usize = 0;
    while i < v.len()
        invariant
            i <= v.len(),
            out@.len() == i,
            forall|j: int| 0 <= j < i ==> (#[trigger] out@[j])@ == v@[j]@,
        decreases v.len() - i,
    {
        out.push(v[i].duplicate());
        i += 1;
    }
    assert(attachments_view(out@) =~= attachments_view(v@));
    out
}

/// A folder: a global one (no owner, no creation time) or one a user made.
pub struct Folder {
    pub id: Oid,
    pub user_id: Option<Oid>,
    pub code: String,
    pub name: String,
    pub created_at: Option<i64>,
}

/// A stored message. `received_at` is in milliseconds after the epoch.
pub struct Message {
    pub id: Oid,
    pub user_id: Oid,
    pub folder_code: String,
    pub from: String,
    pub to: Vec<String>,
    pub subject: String,
    pub snippet: Option<String>,
    pub body: Option<String>,
    pub received_at: i64,
    pub unread: bool,
    pub starred: bool,
    pub important: bool,
    pub attachments: Vec<AttachmentMeta>,
}

pub struct MessageView {
    pub id: Seq<u8>,
    pub user_id: Seq<u8>,
    pub folder_code: Seq<char>,
    pub from: Seq<char>,
    pub to: Seq<Seq<char>>,
    pub subject: Seq<char>,
    pub snippet: Option<Seq<char>>,
    pub body: Option<Seq<char>>,
    pub received_at: i64,
    pub unread: bool,
    pub starred: bool,
    pub important: bool,
    pub attachments: Seq<AttachmentView>,
}

impl View for Message {
    type V = MessageView;

    open spec fn view(&self) -> MessageView {
        MessageView {
            id: self.id.bytes@,
            user_id: self.user_id.bytes@,
            folder_code: self.folder_code@,
            from: self.from@,
            to: strings_view(self.to@),
            subject: self.subject@,
            snippet: ostr(self.snippet),
            body: ostr(self.body),
            received_at: self.received_at,
            unread: self.unread,
            starred: self.starred,
            important: self.important,
            attachments: attachments_view(self.attachments@),
        }
    }
}

/// The snippet kept of a body: its first hundred characters.
pub open spec fn snippet_of(body: Seq<char>) -> Seq<char> {
    take_chars(body, 100)
}

/// A new message as the store writes it: the given id, owner, folder, sender,
/// recipients, subject, body and time; a snippet of the body; not starred,
/// not important.
pub open spec fn composed(
    id: Oid,
    user_id: Oid,
    folder: Seq<char>,
    from: Seq<char>,
    to: Seq<Seq<char>>,
    subject: Seq<char>,
    body: Seq<char>,
    now: i64,
    unread: bool,
    attachments: Seq<AttachmentView>,
) -> MessageView {
    MessageView {
        id: id.bytes@,
        user_id: user_id.bytes@,
        folder_code: folder,
        from,
        to,
        subject,
        snippet: Some(snippet_of(body)),
        body: Some(body),
        received_at: now,
        unread,
        starred: false,
        important: false,
        attachments,
    }
}

fn compose(
    id: Oid,
    user_id: Oid,
    folder: &str,
    from: &str,
    to: Vec<String>,
    subject: &str,
    body: &str,
    now: i64,
    unread: bool,
    attachments: Vec<AttachmentMeta>,
) -> (m: Message)
    ensures
        m@ == composed(id, user_id, folder@, from@, strings_view(to@), subject@, body@, now, unread, attachments_view(attachments@)),
{
    Message {
        id,
        user_id,
        folder_code: folder.to_owned(),
        from: from.to_owned(),
        to,
        subject: subject.to_owned(),
        snippet: Some(first_chars(body, SNIPPET_CHARS)),
        body: Some(body.to_owned()),
        received_at: now,
        unread,
        starred: false,
        important: false,
        attachments,
    }
}

/// Incoming mail: always into the owner's INBOX, unread, with no attachments.
pub fn inbox_message(id: Oid, user_id: Oid, from: &str, to: Vec<String>, subject: &str, body: &str, now: i64) -> (m: Message)
    ensures
        m@ == composed(id, user_id, "INBOX"@, from@, strings_view(to@), subject@, body@, now, true, Seq::empty()),
{
    let m = compose(id, user_id, "INBOX", from, to, subject, body, now, true, Vec::new());
    assert(attachments_view(Seq::<AttachmentMeta>::empty()) =~= Seq::<AttachmentView>::empty());
    m
}

/// A sent message, as kept in the sender's SENT folder: read.
pub fn sent_message(
    id: Oid,
    user_id: Oid,
    from: &str,
    to: Vec<String>,
    subject: &str,
    body: &str,
    now: i64,
    attachments: Vec<AttachmentMeta>,
) -> (m: Message)
    ensures
        m@ == composed(id, user_id, "SENT"@, from@, strings_view(to@), subject@, body@, now, false, attachments_view(attachments@)),
{
    compose(id, user_id, "SENT", from, to, subject, body, now, false, attachments)
}

/// A draft, as kept in the DRAFTS folder: read.
pub fn draft_message(
    id: Oid,
    user_id: Oid,
    from: &str,
    to: Vec<String>,
    subject: &str,
    body: &str,
    now: i64,
    attachments: Vec<AttachmentMeta>,
) -> (m: Message)
    ensures
        m@ == composed(id, user_id, "DRAFTS"@, from@, strings_view(to@), subject@, body@, now, false, attachments_view(attachments@)),
{
    compose(id, user_id, "DRAFTS", from, to, subject, body, now, false, attachments)
}

/// The copy of `src` under a new id in another folder: everything else,
/// the time and the flags included, is kept.
pub fn copy_message(src: &Message, new_id: Oid, target_folder: &str) -> (m: Message)
    ensures
        m@ == (MessageView { id: new_id.bytes@, folder_code: target_folder@, ..src@ }),
{
    Message {
        id: new_id,
        user_id: src.user_id,
        folder_code: target_folder.to_owned(),
        from: src.from.clone(),
        to: copy_strings(&src.to),
        subject: src.subject.clone(),
        snippet: clone_opt(&src.snippet),
        body: clone_opt(&src.body),
        received_at: src.received_at,
        unread: src.unread,
        starred: src.starred,
        important: src.important,
        attachments: copy_attachments(&src.attachments),
    }
}

/// The fixed folders every user sees, by code and name, in the order they are made.
pub open spec fn default_folder_list() -> Seq<(Seq<char>, Seq<char>)> {
    seq![
        ("INBOX"@, "Inbox"@),
        ("SENT"@, "Sent"@),
        ("DRAFTS"@, "Drafts"@),
        ("BIN"@, "Bin"@),
        ("SPAM"@, "Spam"@),
    ]
}

/// The fixed folders, by code and name.
pub fn default_folders() -> (r: Vec<(String, String)>)
    ensures
        r@.map_values(|p: (String, String)| (p.0@, p.1@)) == default_folder_list(),
{
    let r = vec![
        ("INBOX".to_owned(), "Inbox".to_owned()),
        ("SENT".to_owned(), "Sent".to_owned()),
        ("DRAFTS".to_owned(), "Drafts".to_owned()),
        ("BIN".to_owned(), "Bin".to_owned()),
        ("SPAM".to_owned(), "Spam".to_owned()),
    ];
    assert(r@.map_values(|p: (String, String)| (p.0@, p.1@)) =~= default_folder_list());
    r
}

/// Whether a user sees a folder: the fixed folders and the user's own.
pub open spec fn visible_to(f: Folder, user_id: Oid) -> bool {
    match f.user_id {
        None => true,
        Some(owner) => owner.bytes@ == user_id.bytes@,
    }
}

/// The folders of `s` that the user sees, in order.
pub open spec fn visible(s: Seq<Folder>, user_id: Oid) -> Seq<Folder>
    decreases s.len(),
{
    if s.len() == 0 {
        Seq::empty()
    } else {
        let rest = visible(s.drop_last(), user_id);
        if visible_to(s.last(), user_id) { rest.push(s.last()) } else { rest }
    }
}

/// The folders a user's folder list shows, in the store's order: the fixed
/// folders and the user's own, never another user's.
pub fn visible_folders(folders: &Vec<Folder>, user_id: Oid) -> (r: Vec<Folder>)
    ensures
        r@ == visible(folders@, user_id),
{
    let mut out: Vec<Folder> = Vec::new();
    let mut i: usize = 0;
    while i < folders.len()
        invariant
            i <= folders@.len(),
            out@ == visible(folders@.take(i as int), user_id),
        decreases folders.len() - i,
    {
        assert(folders@.take(i + 1).drop_last() =~= folders@.take(i as int));
        let f = &folders[i];
        let shown = match f.user_id {
            None => true,
            Some(owner) => same_oid(&owner, &user_id),
        };
        if shown {
            out.push(Folder { id: f.id, user_id: f.user_id, code: f.code.clone(), name: f.name.clone(), created_at: f.created_at });
        }
        i += 1;
    }
    assert(folders@.take(folders@.len() as int) =~= folders@);
    out
}

/// Codes that users cannot give their own folders.
pub open spec fn is_reserved_code(code: Seq<char>) -> bool {
    exists|i: int| 0 <= i < 5 && default_folder_list()[i].0 == code
}

/// A fixed folder: owned by nobody, with no creation time.
pub fn global_folder(id: Oid, code: &str, name: &str) -> (f: Folder)
    ensures
        f.id == id,
        f.user_id is None,
        f.code@ == code@,
        f.name@ == name@,
        f.created_at is None,
{
    Folder { id, user_id: None, code: code.to_owned(), name: name.to_owned(), created_at: None }
}

/// A folder a user makes, stamped with its creation time.
pub fn user_folder(id: Oid, user_id: Oid, code: &str, name: &str, now: i64) -> (f: Folder)
    ensures
        f.id == id,
        f.user_id == Some(user_id),
        f.code@ == code@,
        f.name@ == name@,
        f.created_at == Some(now),
{
    Folder { id, user_id: Some(user_id), code: code.to_owned(), name: name.to_owned(), created_at: Some(now) }
}

/// One row of the folder list: a folder with its message counts for one user.
pub struct MbListFolderDto {
    pub code: String,
    pub name: String,
    pub unread: u64,
    pub total: u64,
}

/// The row for `folder` with the given counts.
pub fn mb_list_entry(folder: Folder, unread: u64, total: u64) -> (r: MbListFolderDto)
    ensures
        r.code@ == folder.code@,
        r.name@ == folder.name@,
        r.unread == unread,
        r.total == total,
{
    MbListFolderDto { code: folder.code, name: folder.name, unread, total }
}

/// A folder's details for one user: counts, and the newest message's subject,
/// sender and time.
pub struct MbFolderInfoDto {
    pub code: String,
    pub name: String,
    pub unread: u64,
    pub total: u64,
    pub latest_subject: Option<String>,
    pub latest_from: Option<String>,
    pub latest_received_at: Option<String>,
}

/// The details of `folder`, given its counts and its newest message, if any.
pub fn folder_info(folder: Folder, unread: u64, total: u64, latest: Option<Message>) -> (r: MbFolderInfoDto)
    requires
        latest matches Some(m) ==> in_calendar_range(m.received_at),
    ensures
        r.code@ == folder.code@,
        r.name@ == folder.name@,
        r.unread == unread,
        r.total == total,
        match latest {
            Some(m) => ostr(r.latest_subject) == Some(m.subject@) && ostr(r.latest_from) == Some(m.from@)
                && ostr(r.latest_received_at) == Some(rfc3339_of(m.received_at)),
            None => r.latest_subject is None && r.latest_from is None && r.latest_received_at is None,
        },
{
    let (latest_subject, latest_from, latest_received_at) = match latest {
        Some(m) => {
            let ts = rfc3339_text(m.received_at);
            (Some(m.subject), Some(m.from), Some(ts))
        },
        None => (None, None, None),
    };
    MbFolderInfoDto { code: folder.code, name: folder.name, unread, total, latest_subject, latest_from, latest_received_at }
}

/// How many results a query skips and how many it returns at most.
pub struct Paging {
    pub skip: u64,
    pub limit: i64,
}

/// `i64::try_from(n).unwrap_or(fallback)`.
pub open spec fn i64_or(n: u64, fallback: i64) -> i64 {
    if n <= i64::MAX { n as i64 } else { fallback }
}

fn to_i64_or(n: u64, fallback: i64) -> (r: i64)
    ensures
        r == i64_or(n, fallback),
{
    if n <= i64::MAX as u64 { n as i64 } else { fallback }
}

/// Paging of a folder listing: an offset or limit beyond `i64` falls back to
/// 0 and 20.
pub fn list_paging(offset: u64, limit: u64) -> (p: Paging)
    ensures
        p.skip == i64_or(offset, 0),
        p.limit == i64_or(limit, 20),
{
    let skip = to_i64_or(offset, 0);
    Paging { skip: skip as u64, limit: to_i64_or(limit, 20) }
}

/// Paging of a search: the offset as given; a limit beyond `i64` falls back to 50.
pub fn search_paging(offset: u64, limit: u64) -> (p: Paging)
    ensures
        p.skip == offset,
        p.limit == i64_or(limit, 50),
{
    Paging { skip: offset, limit: to_i64_or(limit, 50) }
}

/// Which of a user's messages a query selects: every condition that is
/// present must hold. `to_pattern` and `text_pattern` are case-insensitive
/// regular expressions, over the recipients and over subject or snippet.
pub struct MessageFilter {
    pub user_id: Oid,
    pub folder_code: Option<String>,
    pub from: Option<String>,
    pub to_pattern: Option<String>,
    pub unread: Option<bool>,
    pub starred: Option<bool>,
    pub important: Option<bool>,
    pub received_from: Option<i64>,
    pub received_to: Option<i64>,
    pub text_pattern: Option<String>,
}

/// The characters of an optional string slice.
pub open spec fn ostr_ref(o: Option<&str>) -> Option<Seq<char>> {
    match o {
        Some(s) => Some(s@),
        None => None,
    }
}

/// A present, non-empty text; an empty one counts as absent.
pub open spec fn nonempty(o: Option<Seq<char>>) -> Option<Seq<char>> {
    match o {
        Some(s) => if s.len() > 0 { Some(s) } else { None },
        None => None,
    }
}

fn keep_nonempty(o: Option<&str>) -> (r: Option<String>)
    ensures
        ostr(r) == nonempty(ostr_ref(o)),
{
    match o {
        Some(s) => if !s.is_empty() { Some(s.to_owned()) } else { None },
        None => None,
    }
}

fn nonempty_copy(o: &Option<String>) -> (r: Option<String>)
    ensures
        ostr(r) == nonempty(ostr(*o)),
{
    match o {
        Some(s) => if !s.as_str().is_empty() { Some(s.clone()) } else { None },
        None => None,
    }
}

/// A filter with only the owner set.
pub open spec fn owner_only(f: MessageFilter, user_id: Oid) -> bool {
    &&& f.user_id == user_id
    &&& f.folder_code is None
    &&& f.from is None
    &&& f.to_pattern is None
    &&& f.unread is None
    &&& f.starred is None
    &&& f.important is None
    &&& f.received_from is None
    &&& f.received_to is None
    &&& f.text_pattern is None
}

fn owner_filter(user_id: Oid) -> (f: MessageFilter)
    ensures
        owner_only(f, user_id),
{
    MessageFilter {
        user_id,
        folder_code: None,
        from: None,
        to_pattern: None,
        unread: None,
        starred: None,
        important: None,
        received_from: None,
        received_to: None,
        text_pattern: None,
    }
}

/// The messages of one folder of one user.
pub fn folder_filter(user_id: Oid, folder_code: &str) -> (f: MessageFilter)
    ensures
        owner_only(MessageFilter { folder_code: None, ..f }, user_id),
        ostr(f.folder_code) == Some(folder_code@),
{
    let mut f = owner_filter(user_id);
    f.folder_code = Some(folder_code.to_owned());
    f
}

/// A search in one folder: by sender (exact) and by text, each only when
/// given and not empty.
pub fn simple_filter(user_id: Oid, folder_code: &str, q: Option<&str>, from: Option<&str>) -> (f: MessageFilter)
    ensures
        owner_only(MessageFilter { folder_code: None, from: None, text_pattern: None, ..f }, user_id),
        ostr(f.folder_code) == Some(folder_code@),
        ostr(f.from) == nonempty(ostr_ref(from)),
        ostr(f.text_pattern) == nonempty(ostr_ref(q)),
{
    let mut f = owner_filter(user_id);
    f.folder_code = Some(folder_code.to_owned());
    f.from = keep_nonempty(from);
    f.text_pattern = keep_nonempty(q);
    f
}

/// A search over all folders: by sender and by text, each only when given
/// and not empty.
pub fn global_filter(user_id: Oid, q: Option<&str>, from: Option<&str>) -> (f: MessageFilter)
    ensures
        owner_only(MessageFilter { from: None, text_pattern: None, ..f }, user_id),
        ostr(f.from) == nonempty(ostr_ref(from)),
        ostr(f.text_pattern) == nonempty(ostr_ref(q)),
{
    let mut f = owner_filter(user_id);
    f.from = keep_nonempty(from);
    f.text_pattern = keep_nonempty(q);
    f
}

/// The criteria of an advanced search, as the request gives them.
pub struct SearchCriteria {
    pub folder_code: Option<String>,
    pub q: Option<String>,
    pub from: Option<String>,
    pub to: Option<String>,
    pub unread: Option<bool>,
    pub starred: Option<bool>,
    pub important: Option<bool>,
    pub date_from: Option<i64>,
    pub date_to: Option<i64>,
}

/// An advanced search: texts count only when not empty; flags and the time
/// range (inclusive on both ends) as given.
pub fn advanced_filter(user_id: Oid, c: &SearchCriteria) -> (f: MessageFilter)
    ensures
        f.user_id == user_id,
        ostr(f.folder_code) == nonempty(ostr(c.folder_code)),
        ostr(f.from) == nonempty(ostr(c.from)),
        ostr(f.to_pattern) == nonempty(ostr(c.to)),
        f.unread == c.unread,
        f.starred == c.starred,
        f.important == c.important,
        f.received_from == c.date_from,
        f.received_to == c.date_to,
        ostr(f.text_pattern) == nonempty(ostr(c.q)),
{
    MessageFilter {
        user_id,
        folder_code: nonempty_copy(&c.folder_code),
        from: nonempty_copy(&c.from),
        to_pattern: nonempty_copy(&c.to),
        unread: c.unread,
        starred: c.starred,
        important: c.important,
        received_from: c.date_from,
        received_to: c.date_to,
        text_pattern: nonempty_copy(&c.q),
    }
}

/// The flags an update sets; the store keeps "unread", the opposite of "read".
pub struct FlagUpdate {
    pub unread: Option<bool>,
    pub starred: Option<bool>,
    pub important: Option<bool>,
}

/// The negation of an optional flag.
pub open spec fn negated(b: Option<bool>) -> Option<bool> {
    match b {
        Some(x) => Some(!x),
        None => None,
    }
}

/// The update that sets `read`, `starred` and `important` where given.
pub fn flag_update(read: Option<bool>, starred: Option<bool>, important: Option<bool>) -> (u: FlagUpdate)
    ensures
        u.unread == negated(read),
        u.starred == starred,
        u.important == important,
{
    let unread = match read {
        Some(r) => Some(!r),
        None => None,
    };
    FlagUpdate { unread, starred, important }
}

impl FlagUpdate {
    /// Whether the update sets nothing; the store then changes nothing and
    /// reports no message modified.
    pub fn is_empty(&self) -> (r: bool)
        ensures
            r == (self.unread is None && self.starred is None && self.important is None),
    {
        self.unread.is_none() && self.starred.is_none() && self.important.is_none()
    }
}

} // verus!

verus! {

/// A user's folder list holds no other user's folder.
pub proof fn law_folder_list_is_per_user(s: Seq<Folder>, user_id: Oid)
    ensures
        forall|i: int| 0 <= i < visible(s, user_id).len() ==> visible_to(#[trigger] visible(s, user_id)[i], user_id),
    decreases s.len(),
{
    if s.len() > 0 {
        law_folder_list_is_per_user(s.drop_last(), user_id);
        let rest = visible(s.drop_last(), user_id);
        assert forall|i: int| 0 <= i < visible(s, user_id).len() implies visible_to(#[trigger] visible(s, user_id)[i], user_id) by {
            if i < rest.len() {
                assert(visible(s, user_id)[i] == rest[i]);
            }
        }
    }
}

} // verus!
