//! Which handler a command name reaches, and the answers the dispatcher
//! gives itself.
use vstd::prelude::*;
use crate::cmd;
use crate::comm::{Response, ResponseView};
use crate::text::{concat, str_eq, to_upper, unicode_upper};

verus! {

/// The commands the server answers; any other name is unknown.
#[derive(Clone, Copy, Debug, PartialEq, Eq, Structural)]
pub enum Command {
    Init,
    Auth,
    Resume,
    Logout,
    SessionInfo,
    SessionList,
    SessionKill,
    SessionSuspend,
    SessionResumeSuspended,
    Ping,
    Pong,
    Hb,
    LatencyPing,
    ConnectionInfo,
    RateLimitInfo,
    DebugEcho,
    Uptime,
    Info,
    Status,
    Capabilities,
    Time,
    VersionCheck,
    ConfigPublicGet,
    MbList,
    MbCreate,
    MbRename,
    MbDelete,
    MbInfo,
    MbPurgeTrash,
    MbSubscribe,
    MbUnsubscribe,
    MsgSend,
    MsgSendDraft,
    MsgList,
    MsgGet,
    MsgThread,
    MsgMove,
    MsgCopy,
    MsgDelete,
    MsgExpunge,
    MsgFlagSet,
    MsgFlagClear,
    MsgBulkAction,
    Search,
    SearchGlobal,
    SearchAdv,
    SearchSuggest,
    ProfileGet,
    ProfileSet,
    PrefGet,
    PrefSet,
    AttachUploadInit,
    AttachGet,
    ConnectionList,
    Unknown,
}

/// Each command name and the command it names.
pub open spec fn command_table() -> Seq<(Seq<char>, Command)> {
    seq![
        ("INIT"@, Command::Init),
        ("AUTH"@, Command::Auth),
        ("RESUME"@, Command::Resume),
        ("LOGOUT"@, Command::Logout),
        ("SESSION_INFO"@, Command::SessionInfo),
        ("SESSION_LIST"@, Command::SessionList),
        ("SESSION_KILL"@, Command::SessionKill),
        ("SESSION_SUSPEND"@, Command::SessionSuspend),
        ("SESSION_RESUME_SUSPENDED"@, Command::SessionResumeSuspended),
        ("PING"@, Command::Ping),
        ("PONG"@, Command::Pong),
        ("HB"@, Command::Hb),
        ("LATENCY_PING"@, Command::LatencyPing),
        ("CONNECTION_INFO"@, Command::ConnectionInfo),
        ("RATE_LIMIT_INFO"@, Command::RateLimitInfo),
        ("DEBUG_ECHO"@, Command::DebugEcho),
        ("UPTIME"@, Command::Uptime),
        ("INFO"@, Command::Info),
        ("STATUS"@, Command::Status),
        ("CAPABILITIES"@, Command::Capabilities),
        ("TIME"@, Command::Time),
        ("VERSION_CHECK"@, Command::VersionCheck),
        ("CONFIG_PUBLIC_GET"@, Command::ConfigPublicGet),
        ("MB_LIST"@, Command::MbList),
        ("MB_CREATE"@, Command::MbCreate),
        ("MB_RENAME"@, Command::MbRename),
        ("MB_DELETE"@, Command::MbDelete),
        ("MB_INFO"@, Command::MbInfo),
        ("MB_PURGE_TRASH"@, Command::MbPurgeTrash),
        ("MB_SUBSCRIBE"@, Command::MbSubscribe),
        ("MB_UNSUBSCRIBE"@, Command::MbUnsubscribe),
        ("MSG_SEND"@, Command::MsgSend),
        ("MSG_SEND_DRAFT"@, Command::MsgSendDraft),
        ("MSG_LIST"@, Command::MsgList),
        ("MSG_GET"@, Command::MsgGet),
        ("MSG_THREAD"@, Command::MsgThread),
        ("MSG_MOVE"@, Command::MsgMove),
        ("MSG_COPY"@, Command::MsgCopy),
        ("MSG_DELETE"@, Command::MsgDelete),
        ("MSG_EXPUNGE"@, Command::MsgExpunge),
        ("MSG_FLAG_SET"@, Command::MsgFlagSet),
        ("MSG_FLAG_CLEAR"@, Command::MsgFlagClear),
        ("MSG_BULK_ACTION"@, Command::MsgBulkAction),
        ("SEARCH"@, Command::Search),
        ("SEARCH_GLOBAL"@, Command::SearchGlobal),
        ("SEARCH_ADV"@, Command::SearchAdv),
        ("SEARCH_SUGGEST"@, Command::SearchSuggest),
        ("PROFILE_GET"@, Command::ProfileGet),
        ("PROFILE_SET"@, Command::ProfileSet),
        ("PREF_GET"@, Command::PrefGet),
        ("PREF_SET"@, Command::PrefSet),
        ("ATTACH_UPLOAD_INIT"@, Command::AttachUploadInit),
        ("ATTACH_GET"@, Command::AttachGet),
        ("CONNECTION_LIST"@, Command::ConnectionList),
    ]
}

/// The command of the first row named `name`; unknown when there is none.
pub open spec fn find_command(rows: Seq<(Seq<char>, Command)>, name: Seq<char>) -> Command
    decreases rows.len(),
{
    if rows.len() == 0 {
        Command::Unknown
    } else if rows[0].0 == name {
        rows[0].1
    } else {
        find_command(rows.drop_first(), name)
    }
}

/// The command a request names: its name in upper case, looked up.
pub open spec fn command_of(name: Seq<char>) -> Command {
    find_command(command_table(), unicode_upper(name))
}

fn table() -> (r: Vec<(&'static str, Command)>)
    ensures
        r@.map_values(|p: (&'static str, Command)| (p.0@, p.1)) == command_table(),
{
    let r = vec![
        (cmd::INIT, Command::Init),
        (cmd::AUTH, Command::Auth),
        (cmd::RESUME, Command::Resume),
        (cmd::LOGOUT, Command::Logout),
        (cmd::SESSION_INFO, Command::SessionInfo),
        (cmd::SESSION_LIST, Command::SessionList),
        (cmd::SESSION_KILL, Command::SessionKill),
        (cmd::SESSION_SUSPEND, Command::SessionSuspend),
        (cmd::SESSION_RESUME_SUSPENDED, Command::SessionResumeSuspended),
        (cmd::PING, Command::Ping),
        (cmd::PONG, Command::Pong),
        (cmd::HB, Command::Hb),
        (cmd::LATENCY_PING, Command::LatencyPing),
        (cmd::CONNECTION_INFO, Command::ConnectionInfo),
        (cmd::RATE_LIMIT_INFO, Command::RateLimitInfo),
        (cmd::DEBUG_ECHO, Command::DebugEcho),
        (cmd::UPTIME, Command::Uptime),
        (cmd::INFO, Command::Info),
        (cmd::STATUS, Command::Status),
        (cmd::CAPABILITIES, Command::Capabilities),
        (cmd::TIME, Command::Time),
        (cmd::VERSION_CHECK, Command::VersionCheck),
        (cmd::CONFIG_PUBLIC_GET, Command::ConfigPublicGet),
        (cmd::MB_LIST, Command::MbList),
        (cmd::MB_CREATE, Command::MbCreate),
        (cmd::MB_RENAME, Command::MbRename),
        (cmd::MB_DELETE, Command::MbDelete),
        (cmd::MB_INFO, Command::MbInfo),
        (cmd::MB_PURGE_TRASH, Command::MbPurgeTrash),
        (cmd::MB_SUBSCRIBE, Command::MbSubscribe),
        (cmd::MB_UNSUBSCRIBE, Command::MbUnsubscribe),
        (cmd::MSG_SEND, Command::MsgSend),
        (cmd::MSG_SEND_DRAFT, Command::MsgSendDraft),
        (cmd::MSG_LIST, Command::MsgList),
        (cmd::MSG_GET, Command::MsgGet),
        (cmd::MSG_THREAD, Command::MsgThread),
        (cmd::MSG_MOVE, Command::MsgMove),
        (cmd::MSG_COPY, Command::MsgCopy),
        (cmd::MSG_DELETE, Command::MsgDelete),
        (cmd::MSG_EXPUNGE, Command::MsgExpunge),
        (cmd::MSG_FLAG_SET, Command::MsgFlagSet),
        (cmd::MSG_FLAG_CLEAR, Command::MsgFlagClear),
        (cmd::MSG_BULK_ACTION, Command::MsgBulkAction),
        (cmd::SEARCH, Command::Search),
        (cmd::SEARCH_GLOBAL, Command::SearchGlobal),
        (cmd::SEARCH_ADV, Command::SearchAdv),
        (cmd::SEARCH_SUGGEST, Command::SearchSuggest),
        (cmd::PROFILE_GET, Command::ProfileGet),
        (cmd::PROFILE_SET, Command::ProfileSet),
        (cmd::PREF_GET, Command::PrefGet),
        (cmd::PREF_SET, Command::PrefSet),
        (cmd::ATTACH_UPLOAD_INIT, Command::AttachUploadInit),
        (cmd::ATTACH_GET, Command::AttachGet),
        (cmd::CONNECTION_LIST, Command::ConnectionList),
    ];
    assert(r@.map_values(|p: (&'static str, Command)| (p.0@, p.1)) =~= command_table());
    r
}

/// Routes a request's command name as [`command_of`] says; the upper-case name
/// is returned too, for the unknown-command answer.
pub fn route(name: &str) -> (r: (Command, String))
    ensures
        r.0 == command_of(name@),
        r.1@ == unicode_upper(name@),
{
    let upper = to_upper(name);
    let rows = table();
    let ghost model = rows@.map_values(|p: (&'static str, Command)| (p.0@, p.1));
    assert(model.skip(0) =~= model);
    let mut i: usize = 0;
    while i < rows.len()
        invariant
            i <= rows@.len(),
            upper@ == unicode_upper(name@),
            model == rows@.map_values(|p: (&'static str, Command)| (p.0@, p.1)),
            model == command_table(),
            find_command(model, upper@) == find_command(model.skip(i as int), upper@),
        decreases rows.len() - i,
    {
        assert(model.skip(i as int).drop_first() =~= model.skip(i + 1));
        assert(model.skip(i as int)[0] == model[i as int]);
        assert(model[i as int] == (rows@[i as int].0@, rows@[i as int].1));
        if str_eq(rows[i].0, upper.as_str()) {
            return (rows[i].1, upper);
        }
        i += 1;
    }
    (Command::Unknown, upper)
}

/// The answer to an unknown command, naming it as upper-cased.
pub fn unknown_command_reply(upper_name: &str) -> (r: Response)
    ensures
        r@ == ResponseView::err("UNKNOWN"@, "Unknown command: "@ + upper_name@),
{
    let msg = concat("Unknown command: ", upper_name);
    Response::err("UNKNOWN", msg.as_str())
}

/// The answer to a request that is not valid JSON, with the parser's message.
pub fn parse_error_reply(detail: &str) -> (r: Response)
    ensures
        r@ == ResponseView::err("PARSE"@, "Invalid JSON: "@ + detail@),
{
    let msg = concat("Invalid JSON: ", detail);
    Response::err("PARSE", msg.as_str())
}

/// `RATE_LIMIT_INFO`: no limits are enforced.
pub fn rate_limit_info_reply() -> (r: Response)
    ensures
        r@ == ResponseView::ok("RATE_LIMIT_INFO"@).with_msg("No active limits"@),
{
    Response::ok("RATE_LIMIT_INFO").with_msg("No active limits")
}

/// `INFO`: the server's name and version.
pub fn info_reply() -> (r: Response)
    ensures
        r@ == ResponseView::ok("INFO"@).with_msg("WMTP Server v1.0.0"@),
{
    Response::ok("INFO").with_msg("WMTP Server v1.0.0")
}

/// `STATUS`.
pub fn status_reply() -> (r: Response)
    ensures
        r@ == ResponseView::ok("STATUS"@).with_msg("Running"@),
{
    Response::ok("STATUS").with_msg("Running")
}

/// `UPTIME`: whole seconds since the server started.
pub fn uptime_reply(secs: u64) -> (r: Response)
    ensures
        r@ == ResponseView::ok("UPTIME"@).with_uptime(secs),
{
    Response::ok("UPTIME").with_uptime(secs)
}

} // verus!

verus! {

/// Command names are matched without regard to case: names with the same
/// upper-case form reach the same handler.
pub proof fn law_route_ignores_case(a: Seq<char>, b: Seq<char>)
    requires
        unicode_upper(a) == unicode_upper(b),
    ensures
        command_of(a) == command_of(b),
{
}

} // verus!
