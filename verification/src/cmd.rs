//! The command names of the protocol.
use vstd::prelude::*;

verus! {

pub const INIT: &'static str = "INIT";
pub const AUTH: &'static str = "AUTH";
pub const RESUME: &'static str = "RESUME";
pub const LOGOUT: &'static str = "LOGOUT";
pub const SESSION_INFO: &'static str = "SESSION_INFO";
pub const SESSION_LIST: &'static str = "SESSION_LIST";
pub const CONNECTION_LIST: &'static str = "CONNECTION_LIST";
pub const SESSION_KILL: &'static str = "SESSION_KILL";
pub const SESSION_SUSPEND: &'static str = "SESSION_SUSPEND";
pub const SESSION_RESUME_SUSPENDED: &'static str = "SESSION_RESUME_SUSPENDED";
pub const PING: &'static str = "PING";
pub const PONG: &'static str = "PONG";
pub const HB: &'static str = "HB";
pub const UPTIME: &'static str = "UPTIME";
pub const LATENCY_PING: &'static str = "LATENCY_PING";
pub const CONNECTION_INFO: &'static str = "CONNECTION_INFO";
pub const RATE_LIMIT_INFO: &'static str = "RATE_LIMIT_INFO";
pub const DEBUG_ECHO: &'static str = "DEBUG_ECHO";
pub const INFO: &'static str = "INFO";
pub const STATUS: &'static str = "STATUS";
pub const CAPABILITIES: &'static str = "CAPABILITIES";
pub const TIME: &'static str = "TIME";
pub const VERSION_CHECK: &'static str = "VERSION_CHECK";
pub const CONFIG_PUBLIC_GET: &'static str = "CONFIG_PUBLIC_GET";
pub const MB_LIST: &'static str = "MB_LIST";
pub const MAIL_LIST: &'static str = "MAIL_LIST";
pub const MB_CREATE: &'static str = "MB_CREATE";
pub const MB_RENAME: &'static str = "MB_RENAME";
pub const MB_DELETE: &'static str = "MB_DELETE";
pub const MB_INFO: &'static str = "MB_INFO";
pub const MB_PURGE_TRASH: &'static str = "MB_PURGE_TRASH";
pub const MB_SUBSCRIBE: &'static str = "MB_SUBSCRIBE";
pub const MB_UNSUBSCRIBE: &'static str = "MB_UNSUBSCRIBE";
pub const MSG_SEND: &'static str = "MSG_SEND";
pub const MSG_SEND_DRAFT: &'static str = "MSG_SEND_DRAFT";
pub const MSG_LIST: &'static str = "MSG_LIST";
pub const MSG_GET: &'static str = "MSG_GET";
pub const MSG_HEADERS: &'static str = "MSG_HEADERS";
pub const MSG_THREAD: &'static str = "MSG_THREAD";
pub const MSG_MOVE: &'static str = "MSG_MOVE";
pub const MSG_COPY: &'static str = "MSG_COPY";
pub const MSG_DELETE: &'static str = "MSG_DELETE";
pub const MSG_EXPUNGE: &'static str = "MSG_EXPUNGE";
pub const MSG_UNDELETE: &'static str = "MSG_UNDELETE";
pub const MSG_FLAG_SET: &'static str = "MSG_FLAG_SET";
pub const MSG_FLAG_CLEAR: &'static str = "MSG_FLAG_CLEAR";
pub const MSG_BULK_ACTION: &'static str = "MSG_BULK_ACTION";
pub const SEARCH: &'static str = "SEARCH";
pub const SEARCH_GLOBAL: &'static str = "SEARCH_GLOBAL";
pub const SEARCH_ADV: &'static str = "SEARCH_ADV";
pub const SEARCH_SUGGEST: &'static str = "SEARCH_SUGGEST";
pub const PROFILE_GET: &'static str = "PROFILE_GET";
pub const PROFILE_SET: &'static str = "PROFILE_SET";
pub const PREF_GET: &'static str = "PREF_GET";
pub const PREF_SET: &'static str = "PREF_SET";
pub const ATTACH_UPLOAD_INIT: &'static str = "ATTACH_UPLOAD_INIT";
pub const ATTACH_GET: &'static str = "ATTACH_GET";

} // verus!
