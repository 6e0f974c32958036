//! Reading a JWT without checking its signature, and reading its claims: the
//! header, the claims object, string claims, scopes, `cnf.jwk`, `act.sub`, the
//! audience, and the issuer URL rule.

use vstd::prelude::*;
use vstd::string::*;

use crate::errors::{result_view, AAuthError, AAuthErrorView};
use crate::json::{
    base64url_decode, base64url_parsed, find_member, find_object_member, find_string_member,
    json_parsed, json_value_of, member, members_view, object_member, parse_json, string_member, JsonValue,
    JsonView,
};
use crate::jwk::{jwk_from_members, opt_view, JwkView, JWK};
use crate::text::{chars_of, ranges_view, split_char, split_ranges, split_whitespace, words};

verus! {

/// A JSON object: each member's name and the JSON text of its value.
#[derive(Debug, Clone)]
pub struct JsonObject {
    pub members: Vec<(String, Vec<u8>)>,
}

impl View for JsonObject {
    type V = Seq<(Seq<char>, Seq<u8>)>;

    open spec fn view(&self) -> Seq<(Seq<char>, Seq<u8>)> {
        members_view(self.members@)
    }
}

/// The header fields of a JWT that the token logic reads.
#[derive(Debug, Clone)]
pub struct JwtHeader {
    pub alg: Option<String>,
    pub typ: Option<String>,
    pub kid: Option<String>,
}

pub struct JwtHeaderView {
    pub alg: Option<Seq<char>>,
    pub typ: Option<Seq<char>>,
    pub kid: Option<Seq<char>>,
}

impl View for JwtHeader {
    type V = JwtHeaderView;

    open spec fn view(&self) -> JwtHeaderView {
        JwtHeaderView { alg: opt_view(self.alg), typ: opt_view(self.typ), kid: opt_view(self.kid) }
    }
}

pub open spec fn invalid_jwt_format() -> AAuthErrorView {
    AAuthErrorView::JwtValidationError("invalid JWT format"@)
}

/// Segment `i` of a JWT (`header.payload.signature`), base64url-decoded and
/// parsed as JSON.
pub open spec fn segment_json(jwt: Seq<char>, i: int) -> Result<JsonView, AAuthErrorView> {
    let parts = split_char(jwt, '.');
    if parts.len() != 3 {
        Err(invalid_jwt_format())
    } else {
        match base64url_parsed(parts[i]) {
            Err(e) => Err(AAuthErrorView::Base64Error(e)),
            Ok(bytes) => match json_parsed(bytes) {
                Err(e) => Err(AAuthErrorView::JsonError(e)),
                Ok(v) => Ok(v),
            },
        }
    }
}

/// The header of a JWT.
pub open spec fn jwt_header_of(jwt: Seq<char>) -> Result<JwtHeaderView, AAuthErrorView> {
    match segment_json(jwt, 0) {
        Err(e) => Err(e),
        Ok(JsonView::Object(m)) => Ok(
            JwtHeaderView {
                alg: string_member(m, "alg"@),
                typ: string_member(m, "typ"@),
                kid: string_member(m, "kid"@),
            },
        ),
        Ok(_) => Err(AAuthErrorView::JwtValidationError("JWT header is not a JSON object"@)),
    }
}

/// The claims of a JWT, unverified.
pub open spec fn jwt_claims_of(jwt: Seq<char>) -> Result<Seq<(Seq<char>, Seq<u8>)>, AAuthErrorView> {
    match segment_json(jwt, 1) {
        Err(e) => Err(e),
        Ok(JsonView::Object(m)) => Ok(m),
        Ok(_) => Err(AAuthErrorView::JwtValidationError("JWT claims are not a JSON object"@)),
    }
}

/// Segment `i` of a JWT, base64url-decoded and parsed.
fn decode_segment(jwt: &str, i: usize) -> (r: Result<JsonValue, AAuthError>)
    requires
        i < 3,
    ensures
        result_view(r) == segment_json(jwt@, i as int),
{
    let v = chars_of(jwt);
    let parts = split_ranges(&v, 0, v.len(), '.');
    assert(v@.subrange(0, v@.len() as int) =~= v@);
    if parts.len() != 3 {
        return Err(AAuthError::JwtValidationError(String::from_str("invalid JWT format")));
    }
    let (a, b) = parts[i];
    assert(ranges_view(v@, parts@)[i as int] == v@.subrange(a as int, b as int));
    let text = jwt.substring_char(a, b);
    let bytes = match base64url_decode(text) {
        Ok(bytes) => bytes,
        Err(e) => {
            return Err(AAuthError::Base64Error(e));
        },
    };
    match parse_json(bytes.as_slice()) {
        Ok(value) => Ok(value),
        Err(e) => Err(AAuthError::JsonError(e)),
    }
}

/// Decodes the header of a JWT, without checking its signature.
pub fn decode_jwt_header(jwt: &str) -> (r: Result<JwtHeader, AAuthError>)
    ensures
        result_view(r) == jwt_header_of(jwt@),
{
    match decode_segment(jwt, 0) {
        Err(e) => Err(e),
        Ok(JsonValue::Object(m)) => Ok(
            JwtHeader {
                alg: find_string_member(&m, "alg"),
                typ: find_string_member(&m, "typ"),
                kid: find_string_member(&m, "kid"),
            },
        ),
        Ok(_) => Err(AAuthError::JwtValidationError(String::from_str("JWT header is not a JSON object"))),
    }
}

/// Decodes the claims of a JWT, without checking its signature.
pub fn decode_jwt_claims_unverified(jwt: &str) -> (r: Result<JsonObject, AAuthError>)
    ensures
        result_view(r) == jwt_claims_of(jwt@),
{
    match decode_segment(jwt, 1) {
        Err(e) => Err(e),
        Ok(JsonValue::Object(m)) => Ok(JsonObject { members: m }),
        Ok(_) => Err(AAuthError::JwtValidationError(String::from_str("JWT claims are not a JSON object"))),
    }
}

/// Parses JSON text that must hold an object.
pub fn parse_json_object(text: &[u8]) -> (r: Result<JsonObject, AAuthError>)
    ensures
        result_view(r) == match json_parsed(text@) {
            Err(e) => Err(AAuthErrorView::JsonError(e)),
            Ok(JsonView::Object(m)) => Ok(m),
            Ok(_) => Err(AAuthErrorView::JwtValidationError("not a JSON object"@)),
        },
{
    match parse_json(text) {
        Err(e) => Err(AAuthError::JsonError(e)),
        Ok(JsonValue::Object(m)) => Ok(JsonObject { members: m }),
        Ok(_) => Err(AAuthError::JwtValidationError(String::from_str("not a JSON object"))),
    }
}

/// The claim `name` where it is a string.
pub fn get_string_claim(claims: &JsonObject, name: &str) -> (r: Option<String>)
    ensures
        opt_view(r) == string_member(claims@, name@),
{
    find_string_member(&claims.members, name)
}

/// The `iss` claim of a token, unverified; its absence is an error.
pub open spec fn issuer_of(jwt: Seq<char>) -> Result<Seq<char>, AAuthErrorView> {
    match jwt_claims_of(jwt) {
        Err(e) => Err(e),
        Ok(claims) => match string_member(claims, "iss"@) {
            Some(iss) => Ok(iss),
            None => Err(AAuthErrorView::JwtValidationError("missing iss claim"@)),
        },
    }
}

/// The `kid` of a token's header.
pub open spec fn kid_of(jwt: Seq<char>) -> Result<Option<Seq<char>>, AAuthErrorView> {
    match jwt_header_of(jwt) {
        Err(e) => Err(e),
        Ok(h) => Ok(h.kid),
    }
}

/// The `cnf.jwk` key of a token, unverified.
pub open spec fn token_key_of(jwt: Seq<char>) -> Result<JwkView, AAuthErrorView> {
    match jwt_claims_of(jwt) {
        Err(e) => Err(e),
        Ok(claims) => cnf_jwk_of(claims),
    }
}

/// The granted scopes: the words of the `scope` claim, where it is a string.
pub open spec fn scopes_of(claims: Seq<(Seq<char>, Seq<u8>)>) -> Option<Seq<Seq<char>>> {
    match string_member(claims, "scope"@) {
        Some(s) => Some(words(s)),
        None => None,
    }
}

/// The granted scopes: the space-separated words of the `scope` claim.
pub fn get_scopes(claims: &JsonObject) -> (r: Option<Vec<String>>)
    ensures
        match r {
            Some(v) => scopes_of(claims@) == Some(v@.map_values(|w: String| w@)),
            None => scopes_of(claims@) is None,
        },
{
    match get_string_claim(claims, "scope") {
        Some(s) => Some(split_whitespace(s.as_str())),
        None => None,
    }
}

/// The key of the `cnf.jwk` claim.
pub open spec fn cnf_jwk_of(claims: Seq<(Seq<char>, Seq<u8>)>) -> Result<JwkView, AAuthErrorView> {
    if member(claims, "cnf"@) is None {
        Err(AAuthErrorView::MissingClaim("cnf"@))
    } else {
        match object_member(claims, "cnf"@) {
            None => Err(AAuthErrorView::MissingClaim("cnf.jwk"@)),
            Some(cnf) => match member(cnf, "jwk"@) {
                None => Err(AAuthErrorView::MissingClaim("cnf.jwk"@)),
                Some(text) => match json_value_of(text) {
                    Some(JsonView::Object(m)) => jwk_from_members(m),
                    _ => Err(AAuthErrorView::InvalidKey("cnf.jwk is not a JSON object"@)),
                },
            },
        }
    }
}

/// Reads the public key of the `cnf.jwk` claim.
pub fn extract_cnf_jwk(claims: &JsonObject) -> (r: Result<JWK, AAuthError>)
    ensures
        result_view(r) == cnf_jwk_of(claims@),
{
    if find_member(&claims.members, "cnf").is_none() {
        return Err(AAuthError::MissingClaim(String::from_str("cnf")));
    }
    let cnf = match find_object_member(&claims.members, "cnf") {
        Some(cnf) => cnf,
        None => {
            return Err(AAuthError::MissingClaim(String::from_str("cnf.jwk")));
        },
    };
    let text = match find_member(&cnf, "jwk") {
        Some(text) => text,
        None => {
            return Err(AAuthError::MissingClaim(String::from_str("cnf.jwk")));
        },
    };
    match parse_json(text.as_slice()) {
        Ok(JsonValue::Object(m)) => JWK::from_members(&m),
        _ => Err(AAuthError::InvalidKey(String::from_str("cnf.jwk is not a JSON object"))),
    }
}


/// The `aud` claim names `expected`: it is that string, or an array that holds it.
pub open spec fn audience_matches(claims: Seq<(Seq<char>, Seq<u8>)>, expected: Seq<char>) -> bool {
    match member(claims, "aud"@) {
        Some(text) => match json_value_of(text) {
            Some(JsonView::Str(s)) => s == expected,
            Some(JsonView::Array(elems)) => exists|i: int|
                0 <= i < elems.len() && json_value_of(#[trigger] elems[i]) == Some(
                    JsonView::Str(expected),
                ),
            _ => false,
        },
        None => false,
    }
}

/// Whether the `aud` claim names `expected_audience` (a string equal to it, or
/// an array with a string equal to it).
pub fn claim_matches_audience(claims: &JsonObject, expected_audience: &str) -> (b: bool)
    ensures
        b == audience_matches(claims@, expected_audience@),
{
    let expected = String::from_str(expected_audience);
    match find_member(&claims.members, "aud") {
        None => false,
        Some(text) => match parse_json(text.as_slice()) {
            Ok(JsonValue::Str(s)) => s == expected,
            Ok(JsonValue::Array(elems)) => {
                let mut i: usize = 0;
                while i < elems.len()
                    invariant
                        0 <= i <= elems@.len(),
                        expected@ == expected_audience@,
                        member(claims@, "aud"@) == Some(text@),
                        json_value_of(text@) == Some(
                            JsonView::Array(elems@.map_values(|e: Vec<u8>| e@)),
                        ),
                        forall|j: int|
                            0 <= j < i ==> json_value_of(#[trigger] elems@[j]@) != Some(
                                JsonView::Str(expected_audience@),
                            ),
                    decreases elems@.len() - i,
                {
                    match parse_json(elems[i].as_slice()) {
                        Ok(JsonValue::Str(s)) => {
                            if s == expected {
                                let ghost ev = elems@.map_values(|e: Vec<u8>| e@);
                                assert(ev[i as int] == elems@[i as int]@);
                                assert(json_value_of(ev[i as int]) == Some(
                                    JsonView::Str(expected_audience@),
                                ));
                                return true;
                            }
                        },
                        _ => {},
                    }
                    i = i + 1;
                }
                proof {
                    let ev = elems@.map_values(|e: Vec<u8>| e@);
                    assert forall|k: int| 0 <= k < ev.len() implies json_value_of(#[trigger] ev[k])
                        != Some(JsonView::Str(expected_audience@)) by {
                        assert(ev[k] == elems@[k]@);
                    }
                }
                false
            },
            _ => false,
        },
    }
}

/// Where the `aud` claim is a JSON array, an element at any position that is
/// the JSON string `expected` makes the audience match `expected`.
pub proof fn audience_in_array_matches(
    claims: Seq<(Seq<char>, Seq<u8>)>,
    elems: Seq<Seq<u8>>,
    i: int,
    expected: Seq<char>,
)
    requires
        member(claims, "aud"@) matches Some(text) && json_value_of(text) == Some(
            JsonView::Array(elems),
        ),
        0 <= i < elems.len(),
        json_value_of(elems[i]) == Some(JsonView::Str(expected)),
    ensures
        audience_matches(claims, expected),
{
}

/// Where the `aud` claim is a JSON string, the audience matches exactly that
/// string; where the claims have no `aud`, no audience matches; and an audience
/// that matches is the string itself or an element of the array.
pub proof fn audience_match_cases(claims: Seq<(Seq<char>, Seq<u8>)>, expected: Seq<char>)
    ensures
        match member(claims, "aud"@) {
            None => !audience_matches(claims, expected),
            Some(text) => match json_value_of(text) {
                Some(JsonView::Str(s)) => audience_matches(claims, expected) <==> s == expected,
                _ => true,
            },
        },
        audience_matches(claims, expected) ==> (member(claims, "aud"@) matches Some(text) && (
        json_value_of(text) == Some(JsonView::Str(expected)) || (json_value_of(text) matches Some(
            JsonView::Array(elems),
        ) && exists|i: int|
            0 <= i < elems.len() && json_value_of(#[trigger] elems[i]) == Some(
                JsonView::Str(expected),
            )))),
{
}

/// The `sub` of the `act` claim (RFC 8693).
pub open spec fn act_sub_of(claims: Seq<(Seq<char>, Seq<u8>)>) -> Result<Seq<char>, AAuthErrorView> {
    match member(claims, "act"@) {
        None => Err(AAuthErrorView::MissingClaim("act"@)),
        Some(text) => match json_value_of(text) {
            Some(JsonView::Object(m)) => match string_member(m, "sub"@) {
                Some(s) => Ok(s),
                None => Err(AAuthErrorView::MissingClaim("act.sub"@)),
            },
            _ => Err(AAuthErrorView::JwtValidationError("act claim is not an object"@)),
        },
    }
}

/// Reads `act.sub` from the `act` claim per RFC 8693.
pub fn extract_act_sub(claims: &JsonObject) -> (r: Result<String, AAuthError>)
    ensures
        result_view(r) == act_sub_of(claims@),
{
    let text = match find_member(&claims.members, "act") {
        Some(text) => text,
        None => {
            return Err(AAuthError::MissingClaim(String::from_str("act")));
        },
    };
    match parse_json(text.as_slice()) {
        Ok(JsonValue::Object(m)) => match find_string_member(&m, "sub") {
            Some(s) => Ok(s),
            None => Err(AAuthError::MissingClaim(String::from_str("act.sub"))),
        },
        _ => Err(AAuthError::JwtValidationError(String::from_str("act claim is not an object"))),
    }
}

/// The parts of a URL that the issuer rule reads.
pub struct UrlParts {
    pub scheme: String,
    pub username: String,
    pub password: Option<String>,
    pub host: Option<String>,
    pub port: Option<u16>,
    pub path: String,
    pub query: Option<String>,
    pub fragment: Option<String>,
}

pub struct UrlPartsView {
    pub scheme: Seq<char>,
    pub username: Seq<char>,
    pub password: Option<Seq<char>>,
    pub host: Option<Seq<char>>,
    pub port: Option<u16>,
    pub path: Seq<char>,
    pub query: Option<Seq<char>>,
    pub fragment: Option<Seq<char>>,
}

impl View for UrlParts {
    type V = UrlPartsView;

    open spec fn view(&self) -> UrlPartsView {
        UrlPartsView {
            scheme: self.scheme@,
            username: self.username@,
            password: opt_view(self.password),
            host: opt_view(self.host),
            port: self.port,
            path: self.path@,
            query: opt_view(self.query),
            fragment: opt_view(self.fragment),
        }
    }
}

/// The parts of the URL that `url::Url::parse` reads from `text`; `None` where
/// it refuses it.
pub uninterp spec fn url_parts_of(text: Seq<char>) -> Option<UrlPartsView>;

/// Parses a URL with `url::Url::parse` and reads its scheme, user name,
/// password, host, port, path, query and fragment.
///
/// The contract claims only that the result is a function of the text (the
/// name `url_parts_of`), and that the call fails exactly where that name is
/// `None`.
#[verifier::external_body]
fn parse_url(text: &str) -> (r: Result<UrlParts, url::ParseError>)
    ensures
        match r {
            Ok(p) => url_parts_of(text@) == Some(p@),
            Err(_) => url_parts_of(text@) is None,
        },
{
    url::Url::parse(text).map(|u| UrlParts {
        scheme: String::from(u.scheme()),
        username: String::from(u.username()),
        password: u.password().map(String::from),
        host: u.host_str().map(String::from),
        port: u.port(),
        path: String::from(u.path()),
        query: u.query().map(String::from),
        fragment: u.fragment().map(String::from),
    })
}

/// An issuer URL is `https` (or `http` where allowed) with a host and nothing
/// else: no user, password, port, path, query or fragment.
pub open spec fn acceptable_issuer(text: Seq<char>, allow_insecure_http: bool) -> bool {
    match url_parts_of(text) {
        None => false,
        Some(u) => {
            &&& (u.scheme == "https"@ || (allow_insecure_http && u.scheme == "http"@))
            &&& u.username.len() == 0
            &&& u.password is None
            &&& u.host matches Some(h) && h.len() > 0
            &&& u.port is None
            &&& (u.path == "/"@ || u.path.len() == 0)
            &&& u.query is None
            &&& u.fragment is None
        },
    }
}

/// Whether `url` can stand as a JWT issuer: `https` with host only (no port,
/// path, query, or fragment); `http` too where `allow_insecure_http` is set.
pub fn is_acceptable_jwt_issuer_url(url: &str, allow_insecure_http: bool) -> (b: bool)
    ensures
        b == acceptable_issuer(url@, allow_insecure_http),
{
    let u = match parse_url(url) {
        Ok(u) => u,
        Err(_) => {
            return false;
        },
    };
    let https = String::from_str("https");
    let http = String::from_str("http");
    let slash = String::from_str("/");
    let scheme_ok = u.scheme == https || (allow_insecure_http && u.scheme == http);
    let host_ok = match &u.host {
        Some(h) => !h.as_str().is_empty(),
        None => false,
    };
    scheme_ok && u.username.as_str().is_empty() && u.password.is_none() && host_ok
        && u.port.is_none() && (u.path == slash || u.path.as_str().is_empty())
        && u.query.is_none() && u.fragment.is_none()
}

/// Allowing insecure `http` issuers only adds URLs; without it an acceptable
/// issuer URL is `https`; and an acceptable one parses, with a non-empty host
/// and no user, password, port, query or fragment, and a path that is empty
/// or `/`.
pub proof fn acceptable_issuer_rule(text: Seq<char>, allow_insecure_http: bool)
    ensures
        acceptable_issuer(text, false) ==> acceptable_issuer(text, true),
        acceptable_issuer(text, false) ==> (url_parts_of(text) matches Some(u) && u.scheme
            == "https"@),
        acceptable_issuer(text, allow_insecure_http) ==> (url_parts_of(text) matches Some(u) && {
            &&& u.scheme == "https"@ || u.scheme == "http"@
            &&& u.host matches Some(h) && h.len() > 0
            &&& u.username.len() == 0
            &&& u.password is None
            &&& u.port is None
            &&& u.query is None
            &&& u.fragment is None
            &&& (u.path == "/"@ || u.path.len() == 0)
        }),
{
}

} // verus!
