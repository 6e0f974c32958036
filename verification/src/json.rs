//! JSON as the token logic reads it, and the two decoding steps of a JWT
//! segment: base64url (the `base64` crate) and JSON (the `serde_json` crate).
//!
//! A parsed JSON value is held one level deep: the members of an object and
//! the elements of an array keep their own JSON text, which is parsed again
//! where the logic looks inside them.

use vstd::prelude::*;
use base64::Engine;

verus! {

/// One level of a parsed JSON value.
#[derive(Debug)]
pub enum JsonValue {
    Null,
    Bool(bool),
    /// The number, as `serde_json` writes it.
    Number(String),
    Str(String),
    /// The JSON text of each element.
    Array(Vec<Vec<u8>>),
    /// Each member's name and the JSON text of its value.
    Object(Vec<(String, Vec<u8>)>),
}

/// The mathematical value of a `JsonValue`.
pub enum JsonView {
    Null,
    Bool(bool),
    Number(Seq<char>),
    Str(Seq<char>),
    Array(Seq<Seq<u8>>),
    Object(Seq<(Seq<char>, Seq<u8>)>),
}

pub open spec fn members_view(m: Seq<(String, Vec<u8>)>) -> Seq<(Seq<char>, Seq<u8>)> {
    m.map_values(|p: (String, Vec<u8>)| (p.0@, p.1@))
}

impl View for JsonValue {
    type V = JsonView;

    open spec fn view(&self) -> JsonView {
        match self {
            JsonValue::Null => JsonView::Null,
            JsonValue::Bool(b) => JsonView::Bool(*b),
            JsonValue::Number(n) => JsonView::Number(n@),
            JsonValue::Str(s) => JsonView::Str(s@),
            JsonValue::Array(a) => JsonView::Array(a@.map_values(|e: Vec<u8>| e@)),
            JsonValue::Object(m) => JsonView::Object(members_view(m@)),
        }
    }
}

/// What `serde_json::from_slice::<serde_json::Value>` gives for `bytes`: the
/// value taken one level deep, or the error with which it refuses them.
pub uninterp spec fn json_parsed(bytes: Seq<u8>) -> Result<JsonView, serde_json::Error>;

/// The value parsed from `bytes`; `None` where they are refused.
pub open spec fn json_value_of(bytes: Seq<u8>) -> Option<JsonView> {
    match json_parsed(bytes) {
        Ok(v) => Some(v),
        Err(_) => None,
    }
}

/// Parses JSON text with `serde_json::from_slice` into a `serde_json::Value`
/// and takes it one level deep: nested values are written back as compact
/// JSON text with `serde_json`'s `Display`.
///
/// The contract claims only that the result, value or error, is a function of
/// the bytes (the name `json_parsed`).
#[verifier::external_body]
pub(crate) fn parse_json(bytes: &[u8]) -> (r: Result<JsonValue, serde_json::Error>)
    ensures
        json_parsed(bytes@) == match r {
            Ok(v) => Ok::<JsonView, serde_json::Error>(v@),
            Err(e) => Err(e),
        },
{
    serde_json::from_slice::<serde_json::Value>(bytes).map(|v| match v {
        serde_json::Value::Null => JsonValue::Null,
        serde_json::Value::Bool(b) => JsonValue::Bool(b),
        serde_json::Value::Number(n) => JsonValue::Number(n.to_string()),
        serde_json::Value::String(s) => JsonValue::Str(s),
        serde_json::Value::Array(a) => JsonValue::Array(a.iter().map(|e| e.to_string().into_bytes()).collect()),
        serde_json::Value::Object(m) => JsonValue::Object(m.iter().map(|(k, e)| (k.clone(), e.to_string().into_bytes())).collect()),
    })
}

/// What the `base64` crate's `URL_SAFE_NO_PAD` engine gives for `text`: the
/// decoded bytes, or the error with which it refuses the text.
pub uninterp spec fn base64url_parsed(text: Seq<char>) -> Result<Seq<u8>, base64::DecodeError>;

/// Decodes unpadded base64url text with `base64::engine::general_purpose::URL_SAFE_NO_PAD`.
///
/// The contract claims only that the result, bytes or error, is a function of
/// the text (the name `base64url_parsed`).
#[verifier::external_body]
pub(crate) fn base64url_decode(text: &str) -> (r: Result<Vec<u8>, base64::DecodeError>)
    ensures
        base64url_parsed(text@) == match r {
            Ok(v) => Ok::<Seq<u8>, base64::DecodeError>(v@),
            Err(e) => Err(e),
        },
{
    base64::engine::general_purpose::URL_SAFE_NO_PAD.decode(text)
}

/// The JSON text of the first member named `name`.
pub open spec fn member(m: Seq<(Seq<char>, Seq<u8>)>, name: Seq<char>) -> Option<Seq<u8>>
    decreases m.len(),
{
    if m.len() == 0 {
        None
    } else if m[0].0 == name {
        Some(m[0].1)
    } else {
        member(m.drop_first(), name)
    }
}

/// The value of the member `name` where it is a JSON string.
pub open spec fn string_member(m: Seq<(Seq<char>, Seq<u8>)>, name: Seq<char>) -> Option<Seq<char>> {
    match member(m, name) {
        Some(text) => match json_value_of(text) {
            Some(JsonView::Str(s)) => Some(s),
            _ => None,
        },
        None => None,
    }
}

/// The members of the value of the member `name`, where it is a JSON object.
pub open spec fn object_member(m: Seq<(Seq<char>, Seq<u8>)>, name: Seq<char>) -> Option<
    Seq<(Seq<char>, Seq<u8>)>,
> {
    match member(m, name) {
        Some(text) => match json_value_of(text) {
            Some(JsonView::Object(o)) => Some(o),
            _ => None,
        },
        None => None,
    }
}

/// The JSON text of the first member of `m` named `name`.
pub fn find_member<'a>(m: &'a Vec<(String, Vec<u8>)>, name: &str) -> (r: Option<&'a Vec<u8>>)
    ensures
        match member(members_view(m@), name@) {
            Some(t) => r matches Some(v) && v@ == t,
            None => r is None,
        },
{
    let key = String::from_str(name);
    let ghost mv = members_view(m@);
    let mut i: usize = 0;
    assert(mv.skip(0) =~= mv);
    while i < m.len()
        invariant
            0 <= i <= m@.len(),
            key@ == name@,
            mv == members_view(m@),
            member(mv, name@) == member(mv.skip(i as int), name@),
        decreases m@.len() - i,
    {
        assert(mv.skip(i as int).drop_first() =~= mv.skip(i + 1));
        assert(mv.skip(i as int)[0] == mv[i as int]);
        if m[i].0 == key {
            return Some(&m[i].1);
        }
        i = i + 1;
    }
    None
}

/// The value of the member `name` of `m` where it is a JSON string.
pub fn find_string_member(m: &Vec<(String, Vec<u8>)>, name: &str) -> (r: Option<String>)
    ensures
        match string_member(members_view(m@), name@) {
            Some(s) => r matches Some(v) && v@ == s,
            None => r is None,
        },
{
    match find_member(m, name) {
        Some(text) => match parse_json(text.as_slice()) {
            Ok(JsonValue::Str(s)) => Some(s),
            _ => None,
        },
        None => None,
    }
}

/// The members of the value of the member `name` of `m` where it is a JSON object.
pub fn find_object_member(m: &Vec<(String, Vec<u8>)>, name: &str) -> (r: Option<Vec<(String, Vec<u8>)>>)
    ensures
        match object_member(members_view(m@), name@) {
            Some(o) => r matches Some(v) && members_view(v@) == o,
            None => r is None,
        },
{
    match find_member(m, name) {
        Some(text) => match parse_json(text.as_slice()) {
            Ok(JsonValue::Object(o)) => Some(o),
            _ => None,
        },
        None => None,
    }
}

} // verus!
