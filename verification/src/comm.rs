//! Requests, responses and the summaries that responses carry.
use vstd::prelude::*;
use crate::json::{Json, JsonValue};

verus! {

/// The characters of an optional string.
pub open spec fn ostr(o: Option<String>) -> Option<Seq<char>> {
    match o {
        Some(s) => Some(s@),
        None => None,
    }
}

/// An optional copy of an optional string slice.
pub fn copy_opt(o: Option<&str>) -> (r: Option<String>)
    ensures
        ostr(r) == match o { Some(s) => Some(s@), None => None::<Seq<char>> },
{
    match o {
        Some(s) => Some(s.to_owned()),
        None => None,
    }
}

/// A copy of an optional string.
pub fn clone_opt(o: &Option<String>) -> (r: Option<String>)
    ensures
        ostr(r) == ostr(*o),
{
    match o {
        Some(s) => Some(s.clone()),
        None => None,
    }
}

/// A command as it arrives: its name and its data (null when absent).
pub struct Request {
    pub cmd: String,
    pub data: JsonValue,
}

/// One connection as listed to clients.
pub struct ConnectionSummary {
    pub id: u64,
    pub remote_addr: Option<String>,
    pub session_token: Option<String>,
    pub authenticated: bool,
}

pub struct ConnectionSummaryView {
    pub id: u64,
    pub remote_addr: Option<Seq<char>>,
    pub session_token: Option<Seq<char>>,
    pub authenticated: bool,
}

impl View for ConnectionSummary {
    type V = ConnectionSummaryView;

    open spec fn view(&self) -> ConnectionSummaryView {
        ConnectionSummaryView {
            id: self.id,
            remote_addr: ostr(self.remote_addr),
            session_token: ostr(self.session_token),
            authenticated: self.authenticated,
        }
    }
}

/// One session as listed to clients.
pub struct SessionSummary {
    pub session_token: String,
    pub auth: bool,
    pub email: Option<String>,
}

pub struct SessionSummaryView {
    pub session_token: Seq<char>,
    pub auth: bool,
    pub email: Option<Seq<char>>,
}

impl View for SessionSummary {
    type V = SessionSummaryView;

    open spec fn view(&self) -> SessionSummaryView {
        SessionSummaryView {
            session_token: self.session_token@,
            auth: self.auth,
            email: ostr(self.email),
        }
    }
}

/// A response envelope. Absent members are left out when it is written.
pub struct Response {
    pub cmd: String,
    pub status: String,
    pub msg: Option<String>,
    pub session_token: Option<String>,
    pub auth: Option<bool>,
    pub email: Option<String>,
    pub sessions: Option<Vec<SessionSummary>>,
    pub connections: Option<Vec<ConnectionSummary>>,
    pub total: Option<u64>,
    pub server_time: Option<String>,
    pub uptime_seconds: Option<u64>,
    pub data: Option<JsonValue>,
}

/// Model of a response envelope.
pub struct ResponseView {
    pub cmd: Seq<char>,
    pub status: Seq<char>,
    pub msg: Option<Seq<char>>,
    pub session_token: Option<Seq<char>>,
    pub auth: Option<bool>,
    pub email: Option<Seq<char>>,
    pub sessions: Option<Seq<SessionSummaryView>>,
    pub connections: Option<Seq<ConnectionSummaryView>>,
    pub total: Option<u64>,
    pub server_time: Option<Seq<char>>,
    pub uptime_seconds: Option<u64>,
    pub data: Option<Json>,
}

impl ResponseView {
    /// `Response::ok(cmd)`.
    pub open spec fn ok(cmd: Seq<char>) -> ResponseView {
        ResponseView {
            cmd,
            status: "OK"@,
            msg: None,
            session_token: None,
            auth: None,
            email: None,
            sessions: None,
            connections: None,
            total: None,
            server_time: None,
            uptime_seconds: None,
            data: None,
        }
    }

    /// `Response::err(cmd, msg)`.
    pub open spec fn err(cmd: Seq<char>, msg: Seq<char>) -> ResponseView {
        ResponseView { status: "ERR"@, msg: Some(msg), ..ResponseView::ok(cmd) }
    }

    pub open spec fn with_msg(self, msg: Seq<char>) -> ResponseView {
        ResponseView { msg: Some(msg), ..self }
    }

    pub open spec fn with_token(self, token: Seq<char>) -> ResponseView {
        ResponseView { session_token: Some(token), ..self }
    }

    pub open spec fn with_auth(self, auth: bool) -> ResponseView {
        ResponseView { auth: Some(auth), ..self }
    }

    pub open spec fn with_email(self, email: Option<Seq<char>>) -> ResponseView {
        ResponseView { email, ..self }
    }

    pub open spec fn with_sessions(self, s: Seq<SessionSummaryView>) -> ResponseView {
        ResponseView { sessions: Some(s), ..self }
    }

    pub open spec fn with_connections(self, c: Seq<ConnectionSummaryView>) -> ResponseView {
        ResponseView { connections: Some(c), ..self }
    }

    pub open spec fn with_total(self, total: u64) -> ResponseView {
        ResponseView { total: Some(total), ..self }
    }

    pub open spec fn with_server_time(self, t: Seq<char>) -> ResponseView {
        ResponseView { server_time: Some(t), ..self }
    }

    pub open spec fn with_uptime(self, secs: u64) -> ResponseView {
        ResponseView { uptime_seconds: Some(secs), ..self }
    }

    pub open spec fn with_data(self, data: Json) -> ResponseView {
        ResponseView { data: Some(data), ..self }
    }
}

impl View for Response {
    type V = ResponseView;

    open spec fn view(&self) -> ResponseView {
        ResponseView {
            cmd: self.cmd@,
            status: self.status@,
            msg: ostr(self.msg),
            session_token: ostr(self.session_token),
            auth: self.auth,
            email: ostr(self.email),
            sessions: match self.sessions {
                Some(v) => Some(v@.map_values(|s: SessionSummary| s@)),
                None => None,
            },
            connections: match self.connections {
                Some(v) => Some(v@.map_values(|c: ConnectionSummary| c@)),
                None => None,
            },
            total: self.total,
            server_time: ostr(self.server_time),
            uptime_seconds: self.uptime_seconds,
            data: match self.data {
                Some(d) => Some(d@),
                None => None,
            },
        }
    }
}

impl Response {
    pub fn ok(cmd: &str) -> (r: Self)
        ensures
            r@ == ResponseView::ok(cmd@),
    {
        Response {
            cmd: cmd.to_owned(),
            status: "OK".to_owned(),
            msg: None,
            session_token: None,
            auth: None,
            email: None,
            sessions: None,
            connections: None,
            total: None,
            server_time: None,
            uptime_seconds: None,
            data: None,
        }
    }

    pub fn err(cmd: &str, msg: &str) -> (r: Self)
        ensures
            r@ == ResponseView::err(cmd@, msg@),
    {
        Response {
            cmd: cmd.to_owned(),
            status: "ERR".to_owned(),
            msg: Some(msg.to_owned()),
            session_token: None,
            auth: None,
            email: None,
            sessions: None,
            connections: None,
            total: None,
            server_time: None,
            uptime_seconds: None,
            data: None,
        }
    }

    pub fn with_msg(self, msg: &str) -> (r: Self)
        ensures
            r@ == self@.with_msg(msg@),
    {
        Response { msg: Some(msg.to_owned()), ..self }
    }

    pub fn with_token(self, token: String) -> (r: Self)
        ensures
            r@ == self@.with_token(token@),
    {
        Response { session_token: Some(token), ..self }
    }

    pub fn with_auth(self, auth: bool) -> (r: Self)
        ensures
            r@ == self@.with_auth(auth),
    {
        Response { auth: Some(auth), ..self }
    }

    pub fn with_email(self, email: Option<String>) -> (r: Self)
        ensures
            r@ == self@.with_email(ostr(email)),
    {
        Response { email, ..self }
    }

    pub fn with_sessions(self, sessions: Vec<SessionSummary>) -> (r: Self)
        ensures
            r@ == self@.with_sessions(sessions@.map_values(|s: SessionSummary| s@)),
    {
        Response { sessions: Some(sessions), ..self }
    }

    pub fn with_connections(self, list: Vec<ConnectionSummary>) -> (r: Self)
        ensures
            r@ == self@.with_connections(list@.map_values(|c: ConnectionSummary| c@)),
    {
        Response { connections: Some(list), ..self }
    }

    pub fn with_total(self, total: u64) -> (r: Self)
        ensures
            r@ == self@.with_total(total),
    {
        Response { total: Some(total), ..self }
    }

    pub fn with_server_time(self, t: String) -> (r: Self)
        ensures
            r@ == self@.with_server_time(t@),
    {
        Response { server_time: Some(t), ..self }
    }

    pub fn with_uptime(self, secs: u64) -> (r: Self)
        ensures
            r@ == self@.with_uptime(secs),
    {
        Response { uptime_seconds: Some(secs), ..self }
    }

    pub fn with_data(self, data: JsonValue) -> (r: Self)
        ensures
            r@ == self@.with_data(data@),
    {
        Response { data: Some(data), ..self }
    }
}

/// What a command handler answers: a response envelope, or a whole JSON
/// document of its own.
pub enum Reply {
    Std(Response),
    Doc(JsonValue),
}

pub enum ReplyView {
    Std(ResponseView),
    Doc(Json),
}

impl View for Reply {
    type V = ReplyView;

    open spec fn view(&self) -> ReplyView {
        match self {
            Reply::Std(r) => ReplyView::Std(r@),
            Reply::Doc(d) => ReplyView::Doc(d@),
        }
    }
}

} // verus!
