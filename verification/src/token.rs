//! Session tokens: the stable token derived from an e-mail address, random
//! ephemeral tokens and upload ids, and signed JSON web tokens that wrap a
//! session token.
use vstd::prelude::*;
use base64::Engine as _;
use hmac::Mac as _;
use sha2::Digest as _;
use rand::Rng as _;
use crate::oid::lower_hex;
use crate::text::{to_lower, trim, push_char, chars_of, find_char_from, sub_string, str_eq};

verus! {

broadcast use vstd::string::group_string_axioms;

/// The SHA-256 digest of a byte sequence.
pub uninterp spec fn sha256_digest(data: Seq<u8>) -> Seq<u8>;

/// HMAC-SHA256 of `msg` under `key`.
pub uninterp spec fn hmac_sha256_tag(key: Seq<u8>, msg: Seq<u8>) -> Seq<u8>;

/// The URL-safe base64 text of `data`, without padding.
pub uninterp spec fn b64url(data: Seq<u8>) -> Seq<char>;

/// The bytes that URL-safe, unpadded base64 text decodes to, if it is valid.
pub uninterp spec fn b64url_decoded(text: Seq<char>) -> Option<Seq<u8>>;

/// The JSON text of the object `{"sub": sub, "tok": tok, "iat": iat, "exp": exp}`.
pub uninterp spec fn claims_text(sub: Seq<char>, tok: Seq<char>, iat: u64, exp: u64) -> Seq<char>;

/// Parsing `bytes` as JSON: `None` when they are not JSON, else the members
/// `exp` (as an unsigned integer), `sub` and `tok` (as strings), each absent
/// when missing or of another kind.
pub uninterp spec fn claims_read(bytes: Seq<u8>) -> Option<(Option<u64>, Option<Seq<char>>, Option<Seq<char>>)>;

/// The UTF-8 bytes of a character sequence.
pub open spec fn utf8(s: Seq<char>) -> Seq<u8> {
    vstd::utf8::encode_utf8(s)
}

/// Whether `c` is an ASCII letter or digit.
pub open spec fn is_alnum(c: char) -> bool {
    ('0' <= c && c <= '9') || ('a' <= c && c <= 'z') || ('A' <= c && c <= 'Z')
}

/// Whether every character of `s` is an ASCII letter or digit.
pub open spec fn all_alnum(s: Seq<char>) -> bool {
    forall|i: int| 0 <= i < s.len() ==> is_alnum(#[trigger] s[i])
}

/// Whether `c` belongs to the URL-safe base64 alphabet.
pub open spec fn is_b64url_char(c: char) -> bool {
    is_alnum(c) || c == '-' || c == '_'
}

/// Calls `sha2::Sha256::digest` and writes the digest with `{:x}`: 64 lower-case hex digits.
#[verifier::external_body]
fn sha256_hex(data: &[u8]) -> (r: String)
    ensures
        r@ == lower_hex(sha256_digest(data@)),
        r@.len() == 64,
{
    format!("{:x}", sha2::Sha256::digest(data))
}

/// Calls `rand::Rng::sample` with `rand::distributions::Alphanumeric` on the
/// thread's generator: a byte drawn from `A-Z`, `a-z`, `0-9`.
#[verifier::external_body]
fn random_alphanumeric() -> (r: u8)
    ensures
        is_alnum(r as char),
{
    rand::thread_rng().sample(rand::distributions::Alphanumeric)
}

/// Calls `base64::engine::general_purpose::URL_SAFE_NO_PAD.encode`. The text
/// uses only the URL-safe alphabet, and decoding it gives back `data`.
#[verifier::external_body]
fn b64url_encode(data: &[u8]) -> (r: String)
    ensures
        r@ == b64url(data@),
        forall|i: int| 0 <= i < r@.len() ==> is_b64url_char(#[trigger] r@[i]),
        b64url_decoded(r@) == Some(data@),
{
    base64::engine::general_purpose::URL_SAFE_NO_PAD.encode(data)
}

/// Calls `base64::engine::general_purpose::URL_SAFE_NO_PAD.decode`.
#[verifier::external_body]
fn b64url_decode(text: &str) -> (r: Option<Vec<u8>>)
    ensures
        match r {
            Some(v) => b64url_decoded(text@) == Some(v@),
            None => b64url_decoded(text@) is None,
        },
{
    match base64::engine::general_purpose::URL_SAFE_NO_PAD.decode(text) {
        Ok(v) => Some(v),
        Err(_) => None,
    }
}

/// Calls `hmac::Hmac::<sha2::Sha256>::new_from_slice` (which accepts keys of
/// any length), `update` and `finalize`: the HMAC-SHA256 tag of `msg` under `key`.
#[verifier::external_body]
fn hmac_sha256(key: &[u8], msg: &[u8]) -> (r: Vec<u8>)
    ensures
        r@ == hmac_sha256_tag(key@, msg@),
{
    let mut mac = hmac::Hmac::<sha2::Sha256>::new_from_slice(key).expect("HMAC takes keys of any length");
    mac.update(msg);
    mac.finalize().into_bytes().to_vec()
}

/// Builds a `serde_json::Map` with the members `sub`, `tok`, `iat`, `exp` and
/// writes it with `Value::to_string`. Reading the written bytes back as JSON
/// gives the same members.
#[verifier::external_body]
fn claims_json(sub: &str, tok: &str, iat: u64, exp: u64) -> (r: String)
    ensures
        r@ == claims_text(sub@, tok@, iat, exp),
        claims_read(utf8(r@)) == Some((Some(exp), Some(sub@), Some(tok@))),
{
    let mut m = serde_json::Map::new();
    m.insert("sub".to_string(), serde_json::Value::from(sub));
    m.insert("tok".to_string(), serde_json::Value::from(tok));
    m.insert("iat".to_string(), serde_json::Value::from(iat));
    m.insert("exp".to_string(), serde_json::Value::from(exp));
    serde_json::Value::Object(m).to_string()
}

/// Calls `serde_json::from_slice::<serde_json::Value>` and reads the members
/// `exp` (`as_u64`), `sub` and `tok` (`as_str`).
#[verifier::external_body]
fn read_claims(bytes: &[u8]) -> (r: Option<(Option<u64>, Option<String>, Option<String>)>)
    ensures
        claims_read(bytes@) == match r {
            Some((e, s, t)) => Some((e, crate::comm::ostr(s), crate::comm::ostr(t))),
            None => None,
        },
{
    match serde_json::from_slice::<serde_json::Value>(bytes) {
        Ok(v) => Some((v["exp"].as_u64(), v["sub"].as_str().map(|s| s.to_string()), v["tok"].as_str().map(|s| s.to_string()))),
        Err(_) => None,
    }
}

/// Calls `SystemTime::now().duration_since(UNIX_EPOCH)` (zero when the clock is
/// before the epoch) and takes whole seconds. Nothing is promised of the value.
#[verifier::external_body]
pub(crate) fn unix_now() -> (r: u64) {
    std::time::SystemTime::now().duration_since(std::time::UNIX_EPOCH).unwrap_or_default().as_secs()
}

/// The stable session token of an e-mail address: the lower-case hex SHA-256
/// digest of the address, trimmed and lower-cased.
pub open spec fn email_token(email: Seq<char>) -> Seq<char> {
    lower_hex(sha256_digest(utf8(unicode_lower_trim(email))))
}

/// The address as tokens are derived from it: trimmed, then lower-cased.
pub open spec fn unicode_lower_trim(email: Seq<char>) -> Seq<char> {
    crate::text::unicode_lower(crate::text::unicode_trim(email))
}

/// The stable session token of an e-mail address.
pub fn token_from_email(email: &str) -> (r: String)
    ensures
        r@ == email_token(email@),
        r@.len() == 64,
{
    let lowered = to_lower(trim(email));
    sha256_hex(lowered.as_str().as_bytes())
}

/// `n` random ASCII letters and digits.
fn random_alphanumeric_string(prefix: &str, n: usize) -> (r: String)
    ensures
        r@.len() == prefix@.len() + n,
        r@.take(prefix@.len() as int) == prefix@,
        all_alnum(r@.skip(prefix@.len() as int)),
{
    let mut s = prefix.to_owned();
    let mut i: usize = 0;
    while i < n
        invariant
            i <= n,
            s@.len() == prefix@.len() + i,
            s@.take(prefix@.len() as int) == prefix@,
            all_alnum(s@.skip(prefix@.len() as int)),
        decreases n - i,
    {
        let b = random_alphanumeric();
        let ghost before = s@;
        push_char(&mut s, b as char);
        assert(s@.take(prefix@.len() as int) =~= before.take(prefix@.len() as int));
        assert(s@.skip(prefix@.len() as int) =~= before.skip(prefix@.len() as int).push(b as char));
        i += 1;
    }
    s
}

/// A random ephemeral session token: 32 ASCII letters and digits.
pub fn generate_ephemeral_token() -> (r: String)
    ensures
        r@.len() == 32,
        all_alnum(r@),
{
    let r = random_alphanumeric_string("", 32);
    proof {
        reveal_strlit("");
        assert(r@.skip(0) =~= r@);
    }
    r
}

/// A random upload id: `upl_` and 16 ASCII letters and digits.
pub fn gen_upload_id() -> (r: String)
    ensures
        r@.len() == 20,
        r@.take(4) == "upl_"@,
        all_alnum(r@.skip(4)),
{
    proof { reveal_strlit("upl_"); }
    random_alphanumeric_string("upl_", 16)
}

/// The secret used when none is configured.
pub const DEFAULT_SECRET: &'static str = "wmtp-default-secret-change-in-production";

/// Seconds a JSON web token stays valid: seven days.
pub const JWT_EXPIRY_SECS: u64 = 604800;

/// The signing secret: the configured one, or the default.
pub fn jwt_secret(configured: Option<String>) -> (r: String)
    ensures
        r@ == match configured { Some(s) => s@, None => DEFAULT_SECRET@ },
{
    match configured {
        Some(s) => s,
        None => DEFAULT_SECRET.to_owned(),
    }
}

/// The JOSE header of every token.
pub const JWT_HEADER: &'static str = "{\"alg\":\"HS256\",\"typ\":\"JWT\"}";

/// The claims a verified token carries.
pub struct JwtClaims {
    pub email: String,
    pub session_token: String,
}

/// `s` with a dot after it.
pub open spec fn dotted(s: Seq<char>) -> Seq<char> {
    s + seq!['.']
}

/// The part of a token that is signed.
pub open spec fn jwt_signing_input(email: Seq<char>, tok: Seq<char>, now: u64) -> Seq<char> {
    dotted(b64url(utf8(JWT_HEADER@))) + b64url(utf8(claims_text(email, tok, now, expiry(now))))
}

/// When a token issued at `now` expires.
pub open spec fn expiry(now: u64) -> u64 {
    if now <= u64::MAX - JWT_EXPIRY_SECS { (now + JWT_EXPIRY_SECS) as u64 } else { u64::MAX }
}

/// The token issued at `now` for `email` and session token `tok`, signed with `secret`.
pub open spec fn jwt_text(email: Seq<char>, tok: Seq<char>, secret: Seq<char>, now: u64) -> Seq<char> {
    let input = jwt_signing_input(email, tok, now);
    dotted(input) + b64url(hmac_sha256_tag(utf8(secret), utf8(input)))
}

/// Whether `s` holds no dot.
pub open spec fn dot_free(s: Seq<char>) -> bool {
    !s.contains('.')
}

/// Whether `s` is `a.b.c` with no dot in `a` or `b`.
pub open spec fn is_split(s: Seq<char>, a: Seq<char>, b: Seq<char>, c: Seq<char>) -> bool {
    dot_free(a) && dot_free(b) && s == dotted(a) + dotted(b) + c
}

/// The first three dot-separated parts of `s`, the last holding the rest: `s.splitn(3, '.')`
/// when it gives three parts.
pub open spec fn split3(s: Seq<char>) -> Option<(Seq<char>, Seq<char>, Seq<char>)> {
    if exists|a: Seq<char>, b: Seq<char>, c: Seq<char>| is_split(s, a, b, c) {
        Some(choose|a: Seq<char>, b: Seq<char>, c: Seq<char>| is_split(s, a, b, c))
    } else {
        None
    }
}

/// What verifying `jwt` at time `now` with `secret` gives: the e-mail and
/// session token it carries, or nothing.
pub open spec fn jwt_claims(jwt: Seq<char>, secret: Seq<char>, now: u64) -> Option<(Seq<char>, Seq<char>)> {
    match split3(jwt) {
        None => None,
        Some((h, p, sig)) => {
            let input = dotted(h) + p;
            if b64url(hmac_sha256_tag(utf8(secret), utf8(input))) != sig {
                None
            } else {
                match b64url_decoded(p) {
                    None => None,
                    Some(bytes) => match claims_read(bytes) {
                        None => None,
                        Some((exp, sub, tok)) => match exp {
                            None => None,
                            Some(e) => if now > e {
                                None
                            } else {
                                match (sub, tok) {
                                    (Some(s), Some(t)) => Some((s, t)),
                                    _ => None,
                                }
                            },
                        },
                    },
                }
            }
        },
    }
}

/// A split of `a.b.c` with dot-free `a` and `b` is unique.
pub proof fn lemma_split_unique(s: Seq<char>, a: Seq<char>, b: Seq<char>, c: Seq<char>, a2: Seq<char>, b2: Seq<char>, c2: Seq<char>)
    requires
        is_split(s, a, b, c),
        is_split(s, a2, b2, c2),
    ensures
        a == a2 && b == b2 && c == c2,
{
    assert(s[a.len() as int] == '.');
    assert(s[a2.len() as int] == '.');
    if a.len() < a2.len() {
        assert(s[a.len() as int] == a2[a.len() as int]);
        assert(a2.contains('.'));
    }
    if a2.len() < a.len() {
        assert(s[a2.len() as int] == a[a2.len() as int]);
        assert(a.contains('.'));
    }
    assert(a =~= s.take(a.len() as int));
    assert(a2 =~= s.take(a2.len() as int));
    let r = s.skip(a.len() as int + 1);
    assert(r =~= dotted(b) + c);
    assert(r =~= dotted(b2) + c2);
    assert(r[b.len() as int] == '.');
    assert(r[b2.len() as int] == '.');
    if b.len() < b2.len() {
        assert(r[b.len() as int] == b2[b.len() as int]);
        assert(b2.contains('.'));
    }
    if b2.len() < b.len() {
        assert(r[b2.len() as int] == b[b2.len() as int]);
        assert(b.contains('.'));
    }
    assert(b =~= r.take(b.len() as int));
    assert(b2 =~= r.take(b2.len() as int));
    assert(c =~= r.skip(b.len() as int + 1));
    assert(c2 =~= r.skip(b2.len() as int + 1));
}

/// The parts of `a.b.c` with dot-free `a` and `b`.
pub proof fn lemma_split3(a: Seq<char>, b: Seq<char>, c: Seq<char>)
    requires
        dot_free(a),
        dot_free(b),
    ensures
        split3(dotted(a) + dotted(b) + c) == Some((a, b, c)),
{
    let s = dotted(a) + dotted(b) + c;
    assert(is_split(s, a, b, c));
    let (x, y, z) = choose|x: Seq<char>, y: Seq<char>, z: Seq<char>| is_split(s, x, y, z);
    lemma_split_unique(s, a, b, c, x, y, z);
}

/// Splits a token at its first two dots.
fn split_jwt(jwt: &str) -> (r: Option<(String, String, String)>)
    ensures
        match r {
            Some((a, b, c)) => split3(jwt@) == Some((a@, b@, c@)),
            None => split3(jwt@) is None,
        },
{
    let v = chars_of(jwt);
    let i = match find_char_from(&v, '.', 0) {
        Some(i) => i,
        None => {
            proof {
                if exists|a: Seq<char>, b: Seq<char>, c: Seq<char>| is_split(jwt@, a, b, c) {
                    let (a, b, c) = choose|a: Seq<char>, b: Seq<char>, c: Seq<char>| is_split(jwt@, a, b, c);
                    assert(jwt@[a.len() as int] == '.');
                }
            }
            return None;
        },
    };
    let j = match find_char_from(&v, '.', i + 1) {
        Some(j) => j,
        None => {
            proof {
                if exists|a: Seq<char>, b: Seq<char>, c: Seq<char>| is_split(jwt@, a, b, c) {
                    let (a, b, c) = choose|a: Seq<char>, b: Seq<char>, c: Seq<char>| is_split(jwt@, a, b, c);
                    assert(jwt@[a.len() as int] == '.');
                    if a.len() > i {
                        assert(jwt@[i as int] == a[i as int]);
                        assert(a.contains('.'));
                    }
                    assert(jwt@[(a.len() + 1 + b.len()) as int] == '.');
                }
            }
            return None;
        },
    };
    let a = sub_string(&v, 0, i);
    let b = sub_string(&v, i + 1, j);
    let c = sub_string(&v, j + 1, v.len());
    proof {
        assert(dot_free(a@)) by {
            if a@.contains('.') {
                let k = choose|k: int| 0 <= k < a@.len() && a@[k] == '.';
                assert(v@[k] == '.');
            }
        }
        assert(dot_free(b@)) by {
            if b@.contains('.') {
                let k = choose|k: int| 0 <= k < b@.len() && b@[k] == '.';
                assert(v@[i as int + 1 + k] == '.');
            }
        }
        assert(jwt@ =~= dotted(a@) + dotted(b@) + c@);
        lemma_split3(a@, b@, c@);
    }
    Some((a, b, c))
}

/// The token issued at `now` for `email` and session `session_token`, signed
/// with `secret`. Verifying it with the same secret at any time up to its
/// expiry gives back the e-mail and the session token.
pub fn issue_jwt_at(email: &str, session_token: &str, secret: &str, now: u64) -> (r: String)
    ensures
        r@ == jwt_text(email@, session_token@, secret@, now),
        forall|t: u64| t <= expiry(now) ==> jwt_claims(r@, secret@, t) == Some((email@, session_token@)),
{
    let header = b64url_encode(JWT_HEADER.as_bytes());
    let exp = now.saturating_add(JWT_EXPIRY_SECS);
    let payload_json = claims_json(email, session_token, now, exp);
    let payload = b64url_encode(payload_json.as_str().as_bytes());
    let mut signing_input = header.clone();
    push_char(&mut signing_input, '.');
    signing_input.append(payload.as_str());
    let tag = hmac_sha256(secret.as_bytes(), signing_input.as_str().as_bytes());
    let sig = b64url_encode(tag.as_slice());
    let mut jwt = signing_input.clone();
    push_char(&mut jwt, '.');
    jwt.append(sig.as_str());
    proof {
        assert(exp == expiry(now));
        assert(signing_input@ =~= jwt_signing_input(email@, session_token@, now));
        assert(jwt@ =~= jwt_text(email@, session_token@, secret@, now));
        assert(dot_free(header@)) by {
            if header@.contains('.') {
                let k = choose|k: int| 0 <= k < header@.len() && header@[k] == '.';
                assert(is_b64url_char(header@[k]));
            }
        }
        assert(dot_free(payload@)) by {
            if payload@.contains('.') {
                let k = choose|k: int| 0 <= k < payload@.len() && payload@[k] == '.';
                assert(is_b64url_char(payload@[k]));
            }
        }
        assert(jwt@ =~= dotted(header@) + dotted(payload@) + sig@);
        lemma_split3(header@, payload@, sig@);
    }
    jwt
}

/// Issues a token for `email` and `session_token` at the current time.
pub fn issue_jwt(email: &str, session_token: &str, secret: &str) -> (r: String)
    ensures
        exists|now: u64| r@ == jwt_text(email@, session_token@, secret@, now),
{
    let now = unix_now();
    issue_jwt_at(email, session_token, secret, now)
}

/// The claims of `jwt` when its signature under `secret` is right and it has
/// not expired at `now`.
pub fn verify_jwt_at(jwt: &str, secret: &str, now: u64) -> (r: Option<JwtClaims>)
    ensures
        match r {
            Some(c) => jwt_claims(jwt@, secret@, now) == Some((c.email@, c.session_token@)),
            None => jwt_claims(jwt@, secret@, now) is None,
        },
{
    let (h, p, sig) = match split_jwt(jwt) {
        Some(parts) => parts,
        None => return None,
    };
    let mut signing_input = h.clone();
    push_char(&mut signing_input, '.');
    signing_input.append(p.as_str());
    let tag = hmac_sha256(secret.as_bytes(), signing_input.as_str().as_bytes());
    let expected = b64url_encode(tag.as_slice());
    proof {
        assert(signing_input@ =~= dotted(h@) + p@);
    }
    if !str_eq(expected.as_str(), sig.as_str()) {
        return None;
    }
    let bytes = match b64url_decode(p.as_str()) {
        Some(b) => b,
        None => return None,
    };
    let (exp, sub, tok) = match read_claims(bytes.as_slice()) {
        Some(c) => c,
        None => return None,
    };
    let exp = match exp {
        Some(e) => e,
        None => return None,
    };
    if now > exp {
        return None;
    }
    match (sub, tok) {
        (Some(email), Some(session_token)) => Some(JwtClaims { email, session_token }),
        _ => None,
    }
}

/// Verifies `jwt` with `secret` at the current time.
pub fn verify_jwt(jwt: &str, secret: &str) -> (r: Option<JwtClaims>)
    ensures
        exists|now: u64| match r {
            Some(c) => jwt_claims(jwt@, secret@, now) == Some((c.email@, c.session_token@)),
            None => jwt_claims(jwt@, secret@, now) is None,
        },
{
    let now = unix_now();
    verify_jwt_at(jwt, secret, now)
}

} // verus!
