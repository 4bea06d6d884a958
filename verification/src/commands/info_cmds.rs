//! Health, diagnostic and administrative commands that need no stored data.
use vstd::prelude::*;
use crate::comm::{Request, Response, ResponseView};
use crate::json::{Json, JNum, JsonValue, arr, boolean, get_str, jint, integer, member, obj, str_field, text, uint};
use crate::text::concat;
use crate::timefmt::rfc3339_at;

verus! {

broadcast use vstd::string::group_string_axioms;

/// `PONG`.
pub fn handle_pong(_req: &Request) -> (r: Response)
    ensures
        r@ == ResponseView::ok("PONG"@).with_msg("Server received PING, replying with PONG"@),
{
    Response::ok("PONG").with_msg("Server received PING, replying with PONG")
}

/// `HB`: acknowledges a heartbeat.
pub fn handle_hb(_req: &Request) -> (r: Response)
    ensures
        r@ == ResponseView::ok("HB"@).with_msg("Heartbeat acknowledged"@),
{
    Response::ok("HB").with_msg("Heartbeat acknowledged")
}

/// `DEBUG_ECHO`: answers with the request's own data.
pub fn handle_debug_echo(req: &Request) -> (r: Response)
    ensures
        r@ == ResponseView::ok("DEBUG_ECHO"@).with_data(req.data@),
{
    Response::ok("DEBUG_ECHO").with_data(req.data.copy())
}

/// The data of a `CONNECTION_INFO` answer.
pub open spec fn connection_info_data(remote_addr: Seq<char>) -> Json {
    Json::Object(seq![
        ("protocol"@, Json::Str("WebTransport/QUIC"@)),
        ("remote_addr"@, Json::Str(remote_addr)),
        ("version"@, Json::Str("1.0"@)),
    ])
}

/// `CONNECTION_INFO`: the peer's address and the transport in use.
pub fn handle_connection_info(_req: &Request, remote_addr: &str) -> (r: Response)
    ensures
        r@ == ResponseView::ok("CONNECTION_INFO"@).with_data(connection_info_data(remote_addr@)),
{
    let data = obj(vec![
        member("protocol", text("WebTransport/QUIC")),
        member("remote_addr", text(remote_addr)),
        member("version", text("1.0")),
    ]);
    proof {
        assert(data@->Object_0 =~= connection_info_data(remote_addr@)->Object_0);
    }
    Response::ok("CONNECTION_INFO").with_data(data)
}

/// The commands `CAPABILITIES` lists.
pub open spec fn capability_names() -> Seq<Seq<char>> {
    seq![
        "INIT"@, "AUTH"@, "RESUME"@, "LOGOUT"@, "SESSION_INFO"@, "SESSION_LIST"@, "SESSION_KILL"@,
        "PING"@, "PONG"@, "HB"@, "UPTIME"@, "LATENCY_PING"@, "CONNECTION_INFO"@, "DEBUG_ECHO"@,
        "INFO"@, "STATUS"@, "CAPABILITIES"@, "TIME"@, "VERSION_CHECK"@, "CONFIG_PUBLIC_GET"@,
        "MB_LIST"@, "MB_CREATE"@, "MB_RENAME"@, "MB_DELETE"@, "MB_INFO"@, "MB_PURGE_TRASH"@,
        "MSG_SEND"@, "MSG_SEND_DRAFT"@, "MSG_LIST"@, "MSG_GET"@, "MSG_HEADERS"@, "MSG_THREAD"@,
        "MSG_MOVE"@, "MSG_COPY"@, "MSG_DELETE"@, "MSG_EXPUNGE"@, "MSG_UNDELETE"@, "MSG_FLAG_SET"@,
        "MSG_FLAG_CLEAR"@, "MSG_BULK_ACTION"@, "SEARCH"@, "SEARCH_GLOBAL"@, "SEARCH_ADV"@,
        "PROFILE_GET"@, "PROFILE_SET"@, "ATTACH_UPLOAD_INIT"@, "ATTACH_GET"@
    ]
}

/// The largest attachment the server accepts, in bytes.
pub const MAX_ATTACHMENT_SIZE: u64 = 104857600;

/// The data of a `CAPABILITIES` answer.
pub open spec fn capabilities_data() -> Json {
    Json::Object(seq![
        ("auth_methods"@, Json::Array(seq![Json::Str("token"@), Json::Str("oauth_future"@)])),
        ("commands"@, Json::Array(capability_names().map_values(|c: Seq<char>| Json::Str(c)))),
        ("max_attachment_size"@, Json::Number(JNum::PosInt(MAX_ATTACHMENT_SIZE))),
    ])
}

/// JSON strings for the given names, in order.
fn text_list(names: &[&str]) -> (r: JsonValue)
    ensures
        r@ == Json::Array(names@.map_values(|c: &str| Json::Str(c@))),
{
    let mut items: Vec<JsonValue> = Vec::new();
    let mut i: usize = 0;
    while i < names.len()
        invariant
            i <= names.len(),
            items@.len() == i,
            forall|j: int| 0 <= j < i ==> (#[trigger] items@[j])@ == Json::Str(names@[j]@),
        decreases names.len() - i,
    {
        items.push(text(names[i]));
        i += 1;
    }
    let r = arr(items);
    proof {
        assert(r@->Array_0 =~= names@.map_values(|c: &str| Json::Str(c@)));
    }
    r
}

/// `CAPABILITIES`: the commands, sign-in methods and limits of the server.
pub fn handle_capabilities(_req: &Request) -> (r: Response)
    ensures
        r@ == ResponseView::ok("CAPABILITIES"@).with_data(capabilities_data()),
{
    let names: [&str; 47] = [
        "INIT", "AUTH", "RESUME", "LOGOUT", "SESSION_INFO", "SESSION_LIST", "SESSION_KILL",
        "PING", "PONG", "HB", "UPTIME", "LATENCY_PING", "CONNECTION_INFO", "DEBUG_ECHO",
        "INFO", "STATUS", "CAPABILITIES", "TIME", "VERSION_CHECK", "CONFIG_PUBLIC_GET",
        "MB_LIST", "MB_CREATE", "MB_RENAME", "MB_DELETE", "MB_INFO", "MB_PURGE_TRASH",
        "MSG_SEND", "MSG_SEND_DRAFT", "MSG_LIST", "MSG_GET", "MSG_HEADERS", "MSG_THREAD",
        "MSG_MOVE", "MSG_COPY", "MSG_DELETE", "MSG_EXPUNGE", "MSG_UNDELETE", "MSG_FLAG_SET",
        "MSG_FLAG_CLEAR", "MSG_BULK_ACTION", "SEARCH", "SEARCH_GLOBAL", "SEARCH_ADV",
        "PROFILE_GET", "PROFILE_SET", "ATTACH_UPLOAD_INIT", "ATTACH_GET",
    ];
    let commands = text_list(&names);
    let methods = arr(vec![text("token"), text("oauth_future")]);
    let data = obj(vec![
        member("auth_methods", methods),
        member("commands", commands),
        member("max_attachment_size", uint(MAX_ATTACHMENT_SIZE)),
    ]);
    proof {
        assert(names@.map_values(|c: &str| Json::Str(c@)) =~= capability_names().map_values(|c: Seq<char>| Json::Str(c)));
        assert(methods@->Array_0 =~= seq![Json::Str("token"@), Json::Str("oauth_future"@)]);
        assert(data@->Object_0 =~= capabilities_data()->Object_0);
    }
    Response::ok("CAPABILITIES").with_data(data)
}

/// The data of a `CONFIG_PUBLIC_GET` answer.
pub open spec fn public_config_data() -> Json {
    Json::Object(seq![
        ("environment"@, Json::Str("development"@)),
        ("max_attachments"@, Json::Number(JNum::PosInt(10))),
        ("max_messages_per_page"@, Json::Number(JNum::PosInt(100))),
        ("rate_limits"@, Json::Object(seq![("auth"@, Json::Str("5/min"@)), ("send"@, Json::Str("100/hour"@))])),
    ])
}

/// `CONFIG_PUBLIC_GET`: the settings clients may see.
pub fn handle_config_public_get(_req: &Request) -> (r: Response)
    ensures
        r@ == ResponseView::ok("CONFIG_PUBLIC_GET"@).with_data(public_config_data()),
{
    let limits = obj(vec![member("auth", text("5/min")), member("send", text("100/hour"))]);
    let data = obj(vec![
        member("environment", text("development")),
        member("max_attachments", uint(10)),
        member("max_messages_per_page", uint(100)),
        member("rate_limits", limits),
    ]);
    proof {
        assert(limits@->Object_0 =~= seq![("auth"@, Json::Str("5/min"@)), ("send"@, Json::Str("100/hour"@))]);
        assert(data@->Object_0 =~= public_config_data()->Object_0);
    }
    Response::ok("CONFIG_PUBLIC_GET").with_data(data)
}

/// The version the server reports.
pub const SERVER_VERSION: &'static str = "1.0.0";

/// The data of a `VERSION_CHECK` answer for the client's version.
pub open spec fn version_check_data(client: Seq<char>) -> Json {
    Json::Object(seq![
        ("client_version"@, Json::Str(client)),
        ("compatible"@, Json::Bool(true)),
        ("server_version"@, Json::Str(SERVER_VERSION@)),
    ])
}

/// `VERSION_CHECK`: the client's version (or "unknown"), the server's, and
/// that they are compatible.
pub fn handle_version_check(req: &Request) -> (r: Response)
    ensures
        r@ == ResponseView::ok("VERSION_CHECK"@).with_data(version_check_data(
            match str_field(req.data@, "version"@) { Some(v) => v, None => "unknown"@ },
        )),
{
    let client: &str = match get_str(&req.data, "version") {
        Some(v) => v,
        None => "unknown",
    };
    let data = obj(vec![
        member("client_version", text(client)),
        member("compatible", boolean(true)),
        member("server_version", text(SERVER_VERSION)),
    ]);
    proof {
        assert(data@->Object_0 =~= version_check_data(client@)->Object_0);
    }
    Response::ok("VERSION_CHECK").with_data(data)
}

/// The data of a `TIME` answer for a UNIX timestamp and its RFC 3339 text.
pub open spec fn time_data(timestamp: i64, utc: Seq<char>) -> Json {
    Json::Object(seq![
        ("timestamp"@, jint(timestamp)),
        ("timezone"@, Json::Str("UTC"@)),
        ("utc"@, Json::Str(utc)),
    ])
}

/// Calls `chrono::Utc::now` and gives, of that one instant, its UNIX timestamp
/// in seconds (`timestamp`), its RFC 3339 text (`to_rfc3339`) and its
/// nanoseconds past the second (`timestamp_subsec_nanos`, below two billion).
/// The instant itself is the clock's and is not stated.
#[verifier::external_body]
fn utc_now() -> (r: (i64, String, u32))
    ensures
        r.2 < 2_000_000_000,
        r.1@ == rfc3339_at(r.0, r.2),
{
    let now = chrono::Utc::now();
    (now.timestamp(), now.to_rfc3339(), now.timestamp_subsec_nanos())
}

/// The RFC 3339 text of the current moment.
pub fn current_time_text() -> (r: String)
    ensures
        exists|t: i64, n: u32| n < 2_000_000_000 && r@ == rfc3339_at(t, n),
{
    let (_t, u, _n) = utc_now();
    u
}

/// The `TIME` answer for a given moment.
pub fn time_response(timestamp: i64, utc: String) -> (r: Response)
    ensures
        r@ == ResponseView::ok("TIME"@).with_data(time_data(timestamp, utc@)),
{
    let data = obj(vec![
        member("timestamp", integer(timestamp)),
        member("timezone", text("UTC")),
        member("utc", JsonValue::Str(utc)),
    ]);
    proof {
        assert(data@->Object_0 =~= time_data(timestamp, utc@)->Object_0);
    }
    Response::ok("TIME").with_data(data)
}

/// `TIME`: the server's current time, as a UNIX timestamp and the RFC 3339
/// text of that same instant.
pub fn handle_time(_req: &Request) -> (r: Response)
    ensures
        exists|t: i64, n: u32| n < 2_000_000_000 && r@ == ResponseView::ok("TIME"@).with_data(time_data(t, rfc3339_at(t, n))),
{
    let (t, u, _n) = utc_now();
    time_response(t, u)
}

/// The folder a notification request names, or "unknown".
pub open spec fn folder_or_unknown(data: Json) -> Seq<char> {
    match str_field(data, "folder"@) {
        Some(f) => f,
        None => "unknown"@,
    }
}

/// `MB_SUBSCRIBE`.
pub fn handle_mb_subscribe(req: &Request) -> (r: Response)
    ensures
        r@ == ResponseView::ok("MB_SUBSCRIBE_OK"@)
            .with_msg("Subscribed to notifications for folder: "@ + folder_or_unknown(req.data@)),
{
    let folder: &str = match get_str(&req.data, "folder") {
        Some(f) => f,
        None => "unknown",
    };
    let msg = concat("Subscribed to notifications for folder: ", folder);
    Response::ok("MB_SUBSCRIBE_OK").with_msg(msg.as_str())
}

/// `MB_UNSUBSCRIBE`.
pub fn handle_mb_unsubscribe(req: &Request) -> (r: Response)
    ensures
        r@ == ResponseView::ok("MB_UNSUBSCRIBE_OK"@)
            .with_msg("Unsubscribed from notifications for folder: "@ + folder_or_unknown(req.data@)),
{
    let folder: &str = match get_str(&req.data, "folder") {
        Some(f) => f,
        None => "unknown",
    };
    let msg = concat("Unsubscribed from notifications for folder: ", folder);
    Response::ok("MB_UNSUBSCRIBE_OK").with_msg(msg.as_str())
}

/// The data of a `SEARCH_SUGGEST` answer for a query.
pub open spec fn suggest_data(q: Seq<char>) -> Json {
    Json::Object(seq![
        ("query"@, Json::Str(q)),
        ("suggestions"@, Json::Array(seq![
            Json::Str("from:"@ + q),
            Json::Str("subject:"@ + q),
            Json::Str("has:attachment "@ + q),
        ])),
    ])
}

/// `SEARCH_SUGGEST`: three search forms built from the query.
pub fn handle_search_suggest(req: &Request) -> (r: Response)
    ensures
        r@ == ResponseView::ok("SEARCH_SUGGEST_OK"@).with_data(suggest_data(
            match str_field(req.data@, "query"@) { Some(q) => q, None => ""@ },
        )),
{
    let query: &str = match get_str(&req.data, "query") {
        Some(q) => q,
        None => "",
    };
    let s1 = concat("from:", query);
    let s2 = concat("subject:", query);
    let s3 = concat("has:attachment ", query);
    let suggestions = arr(vec![JsonValue::Str(s1), JsonValue::Str(s2), JsonValue::Str(s3)]);
    let data = obj(vec![member("query", text(query)), member("suggestions", suggestions)]);
    proof {
        assert(suggestions@->Array_0 =~= seq![Json::Str("from:"@ + query@), Json::Str("subject:"@ + query@), Json::Str("has:attachment "@ + query@)]);
        assert(data@->Object_0 =~= suggest_data(query@)->Object_0);
    }
    Response::ok("SEARCH_SUGGEST_OK").with_data(data)
}

/// The answers to `PING`, `LATENCY_PING` and the periodic heartbeat: the
/// server's time and how long it has been up.
pub fn make_ping_response(server_time: String, uptime: u64) -> (r: Response)
    ensures
        r@ == ResponseView::ok("PONG"@).with_msg("PONG"@).with_server_time(server_time@).with_uptime(uptime),
{
    Response::ok("PONG").with_msg("PONG").with_server_time(server_time).with_uptime(uptime)
}

/// The `LATENCY_PING` answer.
pub fn make_latency_response(server_time: String, uptime: u64) -> (r: Response)
    ensures
        r@ == ResponseView::ok("LATENCY_PONG"@).with_msg("Latency ping"@).with_server_time(server_time@).with_uptime(uptime),
{
    Response::ok("LATENCY_PONG").with_msg("Latency ping").with_server_time(server_time).with_uptime(uptime)
}

/// The heartbeat the server sends on its own.
pub fn make_hb_response(server_time: String, uptime: u64) -> (r: Response)
    ensures
        r@ == ResponseView::ok("HB"@).with_msg("Heartbeat"@).with_server_time(server_time@).with_uptime(uptime),
{
    Response::ok("HB").with_msg("Heartbeat").with_server_time(server_time).with_uptime(uptime)
}

} // verus!
