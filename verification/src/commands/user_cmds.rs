//! Profile and preference commands: PROFILE_GET, PROFILE_SET, PREF_GET and
//! PREF_SET.
use vstd::prelude::*;
use crate::comm::{ostr, Reply, ReplyView, Request, Response, ResponseView};
use crate::commands::gate::{lenient_gate, require_session, require_user, token_gate};
use crate::json::{Json, JsonValue, boolean, get_bool, get_str, jopt_text, member, obj, opt_text, str_field, bool_field, text};
use crate::mailbox::ostr_ref;
use crate::oid::{Oid, oid_hex, oid_to_hex};
use crate::records::{PreferencesDoc, ProfileUpdate, UserDoc, default_language, default_theme, preferences_of};
use crate::session::SessionStore;
use crate::text::concat;
use crate::timefmt::{in_calendar_range, rfc3339_of, rfc3339_text};

verus! {

/// `PROFILE_GET`: checks the session; gives the user to look up.
pub fn plan_profile_get(sessions: &SessionStore, token: &str) -> (r: Result<Oid, Response>)
    ensures
        match (r, token_gate("PROFILE_GET"@, sessions@, token@)) {
            (Ok(u), Ok(s)) => s.user_id == Some(u.bytes@),
            (Err(e), Err(v)) => e@ == v,
            _ => false,
        },
{
    match require_session("PROFILE_GET", sessions, token) {
        Ok(u) => Ok(u.user_id),
        Err(e) => Err(e),
    }
}

/// A user's profile as written in answers.
pub open spec fn profile_json(u: UserDoc) -> Json {
    Json::Object(
        seq![
            ("id"@, Json::Str(oid_hex(u.id.bytes@))),
            ("email"@, Json::Str(u.email@)),
            ("name"@, jopt_text(ostr(u.name))),
            ("avatar_url"@, jopt_text(ostr(u.avatar_url))),
            ("timezone"@, jopt_text(ostr(u.timezone))),
            ("signature"@, jopt_text(ostr(u.signature))),
            ("created_at"@, Json::Str(rfc3339_of(u.created_at))),
        ],
    )
}

/// The answer to `PROFILE_GET`, given the user the store found.
pub open spec fn profile_reply_view(found: Result<Option<UserDoc>, ()>) -> ReplyView {
    match found {
        Err(_) => ReplyView::Std(ResponseView::err("PROFILE_GET"@, "Database error"@)),
        Ok(None) => ReplyView::Std(ResponseView::err("PROFILE_GET"@, "User not found"@)),
        Ok(Some(u)) => ReplyView::Doc(
            Json::Object(
                seq![
                    ("cmd"@, Json::Str("PROFILE_GET"@)),
                    ("status"@, Json::Str("OK"@)),
                    ("msg"@, Json::Str("User profile"@)),
                    ("profile"@, profile_json(u)),
                ],
            ),
        ),
    }
}

/// `PROFILE_GET`: the answer.
pub fn profile_get_reply(found: Result<Option<UserDoc>, ()>) -> (r: Reply)
    requires
        found matches Ok(Some(u)) ==> in_calendar_range(u.created_at),
    ensures
        r@ == profile_reply_view(found),
{
    match found {
        Err(_) => Reply::Std(Response::err("PROFILE_GET", "Database error")),
        Ok(None) => Reply::Std(Response::err("PROFILE_GET", "User not found")),
        Ok(Some(u)) => {
            let profile = obj(
                vec![
                    member("id", JsonValue::Str(oid_to_hex(&u.id))),
                    member("email", text(u.email.as_str())),
                    member("name", opt_text(&u.name)),
                    member("avatar_url", opt_text(&u.avatar_url)),
                    member("timezone", opt_text(&u.timezone)),
                    member("signature", opt_text(&u.signature)),
                    member("created_at", JsonValue::Str(rfc3339_text(u.created_at))),
                ],
            );
            let doc = obj(vec![member("cmd", text("PROFILE_GET")), member("status", text("OK")), member("msg", text("User profile")), member("profile", profile)]);
            proof {
                assert(profile@->Object_0 =~= profile_json(u)->Object_0);
                assert(doc@->Object_0 =~= seq![
                    ("cmd"@, Json::Str("PROFILE_GET"@)),
                    ("status"@, Json::Str("OK"@)),
                    ("msg"@, Json::Str("User profile"@)),
                    ("profile"@, profile_json(u)),
                ]);
            }
            Reply::Doc(doc)
        },
    }
}

/// The profile fields a `PROFILE_SET` request sets: each string member given.
pub open spec fn profile_update_matches(p: ProfileUpdate, data: Json) -> bool {
    &&& ostr(p.name) == str_field(data, "name"@)
    &&& ostr(p.avatar_url) == str_field(data, "avatar_url"@)
    &&& ostr(p.timezone) == str_field(data, "timezone"@)
    &&& ostr(p.signature) == str_field(data, "signature"@)
}

/// Whether a `PROFILE_SET` request names no field.
pub open spec fn no_profile_fields(data: Json) -> bool {
    str_field(data, "name"@) is None && str_field(data, "avatar_url"@) is None && str_field(data, "timezone"@) is None
        && str_field(data, "signature"@) is None
}

fn owned(s: Option<&str>) -> (r: Option<String>)
    ensures
        ostr(r) == ostr_ref(s),
{
    match s {
        Some(t) => Some(t.to_owned()),
        None => None,
    }
}

/// `PROFILE_SET`: a session, then at least one field; gives the user and the update.
pub fn plan_profile_set(req: &Request, sessions: &SessionStore, token: &str) -> (r: Result<(Oid, ProfileUpdate), Response>)
    ensures
        match (r, token_gate("PROFILE_SET"@, sessions@, token@)) {
            (Ok((u, p)), Ok(s)) => s.user_id == Some(u.bytes@) && profile_update_matches(p, req.data@) && !no_profile_fields(req.data@),
            (Err(e), Ok(_)) => no_profile_fields(req.data@) && e@ == ResponseView::err("PROFILE_SET"@, "No fields to update"@),
            (Err(e), Err(v)) => e@ == v,
            _ => false,
        },
{
    let user = match require_session("PROFILE_SET", sessions, token) {
        Ok(u) => u,
        Err(e) => return Err(e),
    };
    let p = ProfileUpdate {
        name: owned(get_str(&req.data, "name")),
        avatar_url: owned(get_str(&req.data, "avatar_url")),
        timezone: owned(get_str(&req.data, "timezone")),
        signature: owned(get_str(&req.data, "signature")),
    };
    if p.is_empty() {
        return Err(Response::err("PROFILE_SET", "No fields to update"));
    }
    Ok((user.user_id, p))
}

/// The answer to `PROFILE_SET`, given how many users the update matched.
pub open spec fn profile_set_reply_view(matched: Result<u64, ()>) -> ResponseView {
    match matched {
        Err(_) => ResponseView::err("PROFILE_SET"@, "Database error"@),
        Ok(n) => if n == 0 {
            ResponseView::err("PROFILE_SET"@, "User not found"@)
        } else {
            ResponseView::ok("PROFILE_SET"@).with_msg("Profile updated"@)
        },
    }
}

/// `PROFILE_SET`: the answer.
pub fn profile_set_reply(matched: Result<u64, ()>) -> (r: Response)
    ensures
        r@ == profile_set_reply_view(matched),
{
    match matched {
        Err(_) => Response::err("PROFILE_SET", "Database error"),
        Ok(n) => if n == 0 { Response::err("PROFILE_SET", "User not found") } else { Response::ok("PROFILE_SET").with_msg("Profile updated") },
    }
}

/// `PREF_GET`: checks the session (an authenticated one with a user); gives the user.
pub fn plan_pref_get(sessions: &SessionStore, token: &str) -> (r: Result<Oid, Response>)
    ensures
        match (r, lenient_gate("PREF_GET"@, sessions@, token@)) {
            (Ok(u), Ok(s)) => s.user_id == Some(u.bytes@),
            (Err(e), Err(v)) => e@ == v,
            _ => false,
        },
{
    match require_user("PREF_GET", sessions, token) {
        Ok(u) => Ok(u.user_id),
        Err(e) => Err(e),
    }
}

/// Stored preferences as written in answers, the owner's id as `{"$oid": hex}`.
pub open spec fn preferences_json(p: PreferencesDoc) -> Json {
    Json::Object(
        seq![
            ("userId"@, Json::Object(seq![("$oid"@, Json::Str(oid_hex(p.user_id.bytes@)))])),
            ("theme"@, Json::Str(p.theme@)),
            ("notifications_enabled"@, Json::Bool(p.notifications_enabled)),
            ("language"@, Json::Str(p.language@)),
        ],
    )
}

/// The preferences answered for a user who never set any.
pub open spec fn default_preferences_json() -> Json {
    Json::Object(
        seq![
            ("theme"@, Json::Str(default_theme())),
            ("notifications_enabled"@, Json::Bool(true)),
            ("language"@, Json::Str(default_language())),
        ],
    )
}

/// The answer to `PREF_GET`, given what the store found or its error text.
pub open spec fn pref_get_reply_view(found: Result<Option<PreferencesDoc>, Seq<char>>) -> ResponseView {
    match found {
        Ok(Some(p)) => ResponseView::ok("PREF_GET_OK"@).with_data(preferences_json(p)),
        Ok(None) => ResponseView::ok("PREF_GET_OK"@).with_data(default_preferences_json()),
        Err(d) => ResponseView::err("PREF_GET"@, "Database error: "@ + d),
    }
}

/// `PREF_GET`: the answer.
pub fn pref_get_reply(found: Result<Option<PreferencesDoc>, String>) -> (r: Response)
    ensures
        r@ == pref_get_reply_view(match found { Ok(x) => Ok(x), Err(d) => Err(d@) }),
{
    match found {
        Ok(Some(p)) => {
            let id = obj(vec![member("$oid", JsonValue::Str(oid_to_hex(&p.user_id)))]);
            let data = obj(
                vec![
                    member("userId", id),
                    member("theme", text(p.theme.as_str())),
                    member("notifications_enabled", boolean(p.notifications_enabled)),
                    member("language", text(p.language.as_str())),
                ],
            );
            proof {
                assert(id@->Object_0 =~= seq![("$oid"@, Json::Str(oid_hex(p.user_id.bytes@)))]);
                assert(data@->Object_0 =~= preferences_json(p)->Object_0);
            }
            Response::ok("PREF_GET_OK").with_data(data)
        },
        Ok(None) => {
            let data = obj(vec![member("theme", text("light")), member("notifications_enabled", boolean(true)), member("language", text("en"))]);
            proof {
                assert(data@->Object_0 =~= default_preferences_json()->Object_0);
            }
            Response::ok("PREF_GET_OK").with_data(data)
        },
        Err(d) => {
            let msg = concat("Database error: ", d.as_str());
            Response::err("PREF_GET", msg.as_str())
        },
    }
}

/// `PREF_SET`: checks the session (an authenticated one with a user) and reads the
/// preferences, defaults filling what the request leaves out.
pub fn plan_pref_set(req: &Request, sessions: &SessionStore, token: &str) -> (r: Result<PreferencesDoc, Response>)
    ensures
        match (r, lenient_gate("PREF_SET"@, sessions@, token@)) {
            (Ok(p), Ok(s)) => {
                &&& s.user_id == Some(p.user_id.bytes@)
                &&& p.theme@ == match str_field(req.data@, "theme"@) { Some(t) => t, None => default_theme() }
                &&& p.notifications_enabled == match bool_field(req.data@, "notifications_enabled"@) { Some(b) => b, None => true }
                &&& p.language@ == match str_field(req.data@, "language"@) { Some(l) => l, None => default_language() }
            },
            (Err(e), Err(v)) => e@ == v,
            _ => false,
        },
{
    let user = match require_user("PREF_SET", sessions, token) {
        Ok(u) => u,
        Err(e) => return Err(e),
    };
    Ok(preferences_of(user.user_id, get_str(&req.data, "theme"), get_bool(&req.data, "notifications_enabled"), get_str(&req.data, "language")))
}

/// The answer to `PREF_SET`, given the store's error text if it failed.
pub open spec fn pref_set_reply_view(stored: Result<(), Seq<char>>) -> ResponseView {
    match stored {
        Ok(_) => ResponseView::ok("PREF_SET_OK"@).with_msg("Preferences updated successfully"@),
        Err(d) => ResponseView::err("PREF_SET"@, "Database error: "@ + d),
    }
}

/// `PREF_SET`: the answer.
pub fn pref_set_reply(stored: Result<(), String>) -> (r: Response)
    ensures
        r@ == pref_set_reply_view(match stored { Ok(_) => Ok(()), Err(d) => Err(d@) }),
{
    match stored {
        Ok(_) => Response::ok("PREF_SET_OK").with_msg("Preferences updated successfully"),
        Err(d) => {
            let msg = concat("Database error: ", d.as_str());
            Response::err("PREF_SET", msg.as_str())
        },
    }
}

} // verus!
