//! The library's own representation of JSON values, with the accessors the
//! command handlers use to read request data.
use vstd::prelude::*;
use crate::text::str_eq;

verus! {

/// A JSON number: a non-negative integer, a negative integer, or any other
/// number kept as its decimal text.
pub enum JsonNumber {
    PosInt(u64),
    NegInt(i64),
    Other(String),
}

/// A JSON value. Objects keep their members in order; keys are unique when
/// the value comes from parsing.
pub enum JsonValue {
    Null,
    Bool(bool),
    Number(JsonNumber),
    Str(String),
    Array(Vec<JsonValue>),
    Object(Vec<(String, JsonValue)>),
}

/// Mathematical model of a JSON number.
pub enum JNum {
    PosInt(u64),
    NegInt(i64),
    Other(Seq<char>),
}

/// Mathematical model of a JSON value.
pub enum Json {
    Null,
    Bool(bool),
    Number(JNum),
    Str(Seq<char>),
    Array(Seq<Json>),
    Object(Seq<(Seq<char>, Json)>),
}

impl View for JsonNumber {
    type V = JNum;

    open spec fn view(&self) -> JNum {
        match self {
            JsonNumber::PosInt(n) => JNum::PosInt(*n),
            JsonNumber::NegInt(n) => JNum::NegInt(*n),
            JsonNumber::Other(s) => JNum::Other(s@),
        }
    }
}

/// The model of a JSON value.
pub open spec fn json_model(x: JsonValue) -> Json
    decreases x,
{
    match x {
        JsonValue::Null => Json::Null,
        JsonValue::Bool(b) => Json::Bool(b),
        JsonValue::Number(n) => Json::Number(n@),
        JsonValue::Str(s) => Json::Str(s@),
        JsonValue::Array(v) => Json::Array(
            Seq::new(v@.len(), |i: int| if 0 <= i < v@.len() { json_model(v@[i]) } else { Json::Null }),
        ),
        JsonValue::Object(v) => Json::Object(
            Seq::new(
                v@.len(),
                |i: int|
                    if 0 <= i < v@.len() {
                        (v@[i].0@, json_model(v@[i].1))
                    } else {
                        (Seq::empty(), Json::Null)
                    },
            ),
        ),
    }
}

impl View for JsonValue {
    type V = Json;

    open spec fn view(&self) -> Json {
        json_model(*self)
    }
}

/// The value of the first member named `key`.
pub open spec fn lookup(fields: Seq<(Seq<char>, Json)>, key: Seq<char>) -> Option<Json>
    decreases fields.len(),
{
    if fields.len() == 0 {
        None
    } else if fields[0].0 == key {
        Some(fields[0].1)
    } else {
        lookup(fields.drop_first(), key)
    }
}

/// `value.get(key)`: the member `key` of an object; nothing for any other value.
pub open spec fn jget(v: Json, key: Seq<char>) -> Option<Json> {
    match v {
        Json::Object(fields) => lookup(fields, key),
        _ => None,
    }
}

/// `value.as_str()`.
pub open spec fn jstr(v: Option<Json>) -> Option<Seq<char>> {
    match v {
        Some(Json::Str(s)) => Some(s),
        _ => None,
    }
}

/// `value.as_bool()`.
pub open spec fn jbool(v: Option<Json>) -> Option<bool> {
    match v {
        Some(Json::Bool(b)) => Some(b),
        _ => None,
    }
}

/// `value.as_u64()`.
pub open spec fn ju64(v: Option<Json>) -> Option<u64> {
    match v {
        Some(Json::Number(JNum::PosInt(n))) => Some(n),
        _ => None,
    }
}

/// `value.as_array()`.
pub open spec fn jarr(v: Option<Json>) -> Option<Seq<Json>> {
    match v {
        Some(Json::Array(a)) => Some(a),
        _ => None,
    }
}

/// The string member `key` of `v`: `v.get(key).and_then(as_str)`.
pub open spec fn str_field(v: Json, key: Seq<char>) -> Option<Seq<char>> {
    jstr(jget(v, key))
}

/// The boolean member `key` of `v`.
pub open spec fn bool_field(v: Json, key: Seq<char>) -> Option<bool> {
    jbool(jget(v, key))
}

/// The unsigned integer member `key` of `v`.
pub open spec fn u64_field(v: Json, key: Seq<char>) -> Option<u64> {
    ju64(jget(v, key))
}

/// An object with string members.
pub open spec fn jtext(s: Seq<char>) -> Json {
    Json::Str(s)
}

/// A string, or null when absent.
pub open spec fn jopt_text(s: Option<Seq<char>>) -> Json {
    match s {
        Some(t) => Json::Str(t),
        None => Json::Null,
    }
}

/// A boolean, or null when absent.
pub open spec fn jopt_bool(b: Option<bool>) -> Json {
    match b {
        Some(x) => Json::Bool(x),
        None => Json::Null,
    }
}

/// An unsigned integer.
pub open spec fn juint(n: u64) -> Json {
    Json::Number(JNum::PosInt(n))
}

impl JsonValue {
    /// `value.get(key)`.
    pub fn get(&self, key: &str) -> (r: Option<&JsonValue>)
        ensures
            match r {
                Some(v) => jget(self@, key@) == Some(v@),
                None => jget(self@, key@) is None,
            },
    {
        match self {
            JsonValue::Object(fields) => {
                let ghost fs = self@->Object_0;
                assert(fs.len() == fields@.len());
                assert(forall|j: int| 0 <= j < fields@.len() ==> #[trigger] fs[j] == (fields@[j].0@, fields@[j].1@));
                assert(fs.skip(0) =~= fs);
                let mut i: usize = 0;
                while i < fields.len()
                    invariant
                        i <= fields.len(),
                        fs == self@->Object_0,
                        self@ is Object,
                        fs.len() == fields@.len(),
                        forall|j: int| 0 <= j < fields@.len() ==> #[trigger] fs[j] == (fields@[j].0@, fields@[j].1@),
                        jget(self@, key@) == lookup(fs.skip(i as int), key@),
                    decreases fields.len() - i,
                {
                    assert(fs.skip(i as int)[0] == fs[i as int]);
                    assert(fs.skip(i as int).drop_first() =~= fs.skip(i + 1));
                    if str_eq(fields[i].0.as_str(), key) {
                        return Some(&fields[i].1);
                    }
                    i += 1;
                }
                None
            },
            _ => None,
        }
    }

    /// `value.as_str()`.
    pub fn as_str(&self) -> (r: Option<&str>)
        ensures
            match r {
                Some(s) => jstr(Some(self@)) == Some(s@),
                None => jstr(Some(self@)) is None,
            },
    {
        match self {
            JsonValue::Str(s) => Some(s.as_str()),
            _ => None,
        }
    }

    /// `value.as_bool()`.
    pub fn as_bool(&self) -> (r: Option<bool>)
        ensures
            r == jbool(Some(self@)),
    {
        match self {
            JsonValue::Bool(b) => Some(*b),
            _ => None,
        }
    }

    /// `value.as_u64()`.
    pub fn as_u64(&self) -> (r: Option<u64>)
        ensures
            r == ju64(Some(self@)),
    {
        match self {
            JsonValue::Number(JsonNumber::PosInt(n)) => Some(*n),
            _ => None,
        }
    }

    /// `value.is_null()`.
    pub fn is_null(&self) -> (r: bool)
        ensures
            r == (self@ is Null),
    {
        match self {
            JsonValue::Null => true,
            _ => false,
        }
    }

    /// `value.as_array()`.
    pub fn as_array(&self) -> (r: Option<&Vec<JsonValue>>)
        ensures
            match r {
                Some(a) => jarr(Some(self@)) == Some(a@.map_values(|e: JsonValue| e@)),
                None => jarr(Some(self@)) is None,
            },
    {
        match self {
            JsonValue::Array(a) => {
                assert(forall|j: int| 0 <= j < a@.len() ==> #[trigger] self@->Array_0[j] == a@[j]@);
                assert(self@->Array_0 =~= a@.map_values(|e: JsonValue| e@));
                Some(a)
            },
            _ => None,
        }
    }
}

/// `data.get(key).and_then(as_str)`.
pub fn get_str<'a>(data: &'a JsonValue, key: &str) -> (r: Option<&'a str>)
    ensures
        match r {
            Some(s) => str_field(data@, key@) == Some(s@),
            None => str_field(data@, key@) is None,
        },
{
    match data.get(key) {
        Some(v) => v.as_str(),
        None => None,
    }
}

/// `data.get(key).and_then(as_bool)`.
pub fn get_bool(data: &JsonValue, key: &str) -> (r: Option<bool>)
    ensures
        r == bool_field(data@, key@),
{
    match data.get(key) {
        Some(v) => v.as_bool(),
        None => None,
    }
}

/// `data.get(key).and_then(as_u64)`.
pub fn get_u64(data: &JsonValue, key: &str) -> (r: Option<u64>)
    ensures
        r == u64_field(data@, key@),
{
    match data.get(key) {
        Some(v) => v.as_u64(),
        None => None,
    }
}

/// A JSON string holding a copy of `s`.
pub fn text(s: &str) -> (r: JsonValue)
    ensures
        r@ == Json::Str(s@),
{
    JsonValue::Str(s.to_owned())
}

/// An object member `(key, value)`.
pub fn member(key: &str, value: JsonValue) -> (r: (String, JsonValue))
    ensures
        r.0@ == key@,
        r.1 == value,
{
    (key.to_owned(), value)
}

} // verus!

verus! {

/// The model of a list of object members.
pub open spec fn members_model(m: Seq<(String, JsonValue)>) -> Seq<(Seq<char>, Json)> {
    m.map_values(|p: (String, JsonValue)| (p.0@, p.1@))
}

/// The model of a list of values.
pub open spec fn items_model(m: Seq<JsonValue>) -> Seq<Json> {
    m.map_values(|v: JsonValue| v@)
}

/// An object with the given members, in order.
pub fn obj(members: Vec<(String, JsonValue)>) -> (r: JsonValue)
    ensures
        r@ == Json::Object(members_model(members@)),
{
    let r = JsonValue::Object(members);
    proof {
        assert(r@->Object_0 =~= members_model(members@));
    }
    r
}

/// An array with the given items, in order.
pub fn arr(items: Vec<JsonValue>) -> (r: JsonValue)
    ensures
        r@ == Json::Array(items_model(items@)),
{
    let r = JsonValue::Array(items);
    proof {
        assert(r@->Array_0 =~= items_model(items@));
    }
    r
}

/// A JSON number for an unsigned integer.
pub fn uint(n: u64) -> (r: JsonValue)
    ensures
        r@ == Json::Number(JNum::PosInt(n)),
{
    JsonValue::Number(JsonNumber::PosInt(n))
}

/// The model of a JSON number for a signed integer, as `serde_json` stores it:
/// non-negative values are unsigned.
pub open spec fn jint(n: i64) -> Json {
    if n >= 0 { Json::Number(JNum::PosInt(n as u64)) } else { Json::Number(JNum::NegInt(n)) }
}

/// A JSON number for a signed integer.
pub fn integer(n: i64) -> (r: JsonValue)
    ensures
        r@ == jint(n),
{
    if n >= 0 { JsonValue::Number(JsonNumber::PosInt(n as u64)) } else { JsonValue::Number(JsonNumber::NegInt(n)) }
}

/// A JSON boolean.
pub fn boolean(b: bool) -> (r: JsonValue)
    ensures
        r@ == Json::Bool(b),
{
    JsonValue::Bool(b)
}

/// A JSON string, or null when absent.
pub fn opt_text(s: &Option<String>) -> (r: JsonValue)
    ensures
        r@ == jopt_text(crate::comm::ostr(*s)),
{
    match s {
        Some(t) => JsonValue::Str(t.clone()),
        None => JsonValue::Null,
    }
}

/// A JSON boolean, or null when absent.
pub fn opt_bool(b: Option<bool>) -> (r: JsonValue)
    ensures
        r@ == jopt_bool(b),
{
    match b {
        Some(x) => JsonValue::Bool(x),
        None => JsonValue::Null,
    }
}

/// An array of strings.
pub fn text_array(v: &Vec<String>) -> (r: JsonValue)
    ensures
        r@ == Json::Array(v@.map_values(|s: String| Json::Str(s@))),
{
    let mut items: Vec<JsonValue> = Vec::new();
    let mut i: usize = 0;
    while i < v.len()
        invariant
            i <= v.len(),
            items@.len() == i,
            forall|j: int| 0 <= j < i ==> (#[trigger] items@[j])@ == Json::Str(v@[j]@),
        decreases v.len() - i,
    {
        items.push(JsonValue::Str(v[i].clone()));
        i += 1;
    }
    let r = arr(items);
    assert(items_model(items@) =~= v@.map_values(|s: String| Json::Str(s@)));
    r
}

impl JsonValue {
    /// A deep copy of the value.
    pub fn copy(&self) -> (r: JsonValue)
        ensures
            r@ == self@,
        decreases self,
    {
        match self {
            JsonValue::Null => JsonValue::Null,
            JsonValue::Bool(b) => JsonValue::Bool(*b),
            JsonValue::Number(JsonNumber::PosInt(n)) => JsonValue::Number(JsonNumber::PosInt(*n)),
            JsonValue::Number(JsonNumber::NegInt(n)) => JsonValue::Number(JsonNumber::NegInt(*n)),
            JsonValue::Number(JsonNumber::Other(s)) => JsonValue::Number(JsonNumber::Other(s.clone())),
            JsonValue::Str(s) => JsonValue::Str(s.clone()),
            JsonValue::Array(v) => {
                let mut out: Vec<JsonValue> = Vec::new();
                let mut i: usize = 0;
                while i < v.len()
                    invariant
                        i <= v.len(),
                        out@.len() == i,
                        forall|j: int| 0 <= j < i ==> (#[trigger] out@[j])@ == v@[j]@,
                        *self == JsonValue::Array(*v),
                    decreases v.len() - i,
                {
                    proof {
                        let ghost x = v@[i as int];
                        assert(decreases_to!(*self => (*self)->Array_0));
                        assert(decreases_to!(*v => v@));
                        assert(decreases_to!(v@ => x));
                    }
                    out.push(v[i].copy());
                    i += 1;
                }
                let r = JsonValue::Array(out);
                assert(r@->Array_0 =~= self@->Array_0);
                r
            },
            JsonValue::Object(v) => {
                let mut out: Vec<(String, JsonValue)> = Vec::new();
                let mut i: usize = 0;
                while i < v.len()
                    invariant
                        i <= v.len(),
                        out@.len() == i,
                        forall|j: int| 0 <= j < i ==> (#[trigger] out@[j]).0@ == v@[j].0@ && out@[j].1@ == v@[j].1@,
                        *self == JsonValue::Object(*v),
                    decreases v.len() - i,
                {
                    proof {
                        let ghost x = v@[i as int];
                        assert(decreases_to!(*self => (*self)->Object_0));
                        assert(decreases_to!(*v => v@));
                        assert(decreases_to!(v@ => x));
                        assert(decreases_to!(x => x.1));
                    }
                    out.push((v[i].0.clone(), v[i].1.copy()));
                    i += 1;
                }
                let r = JsonValue::Object(out);
                assert(r@->Object_0 =~= self@->Object_0);
                r
            },
        }
    }
}

} // verus!
