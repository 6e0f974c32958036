//! `JWK`: a JSON Web Key (RFC 7517) as the token logic reads it, and reading
//! one from the members of a JSON object.

use vstd::prelude::*;

use crate::errors::{AAuthError, AAuthErrorView};
use crate::json::{
    find_member, json_value_of, member, members_view, parse_json, string_member, JsonValue, JsonView,
};
use crate::text::concat_str;

verus! {

/// A JSON Web Key. `extra` holds the members that have no field of their own,
/// each with its value as JSON text.
#[derive(Debug, Clone)]
pub struct JWK {
    pub kty: String,
    pub crv: Option<String>,
    pub x: Option<String>,
    pub y: Option<String>,
    pub d: Option<String>,
    pub n: Option<String>,
    pub e: Option<String>,
    pub kid: Option<String>,
    pub alg: Option<String>,
    pub extra: Vec<(String, Vec<u8>)>,
}

/// The mathematical value of a `JWK`.
pub struct JwkView {
    pub kty: Seq<char>,
    pub crv: Option<Seq<char>>,
    pub x: Option<Seq<char>>,
    pub y: Option<Seq<char>>,
    pub d: Option<Seq<char>>,
    pub n: Option<Seq<char>>,
    pub e: Option<Seq<char>>,
    pub kid: Option<Seq<char>>,
    pub alg: Option<Seq<char>>,
    pub extra: Seq<(Seq<char>, Seq<u8>)>,
}

/// The characters of an optional string.
pub open spec fn opt_view(o: Option<String>) -> Option<Seq<char>> {
    match o {
        Some(s) => Some(s@),
        None => None,
    }
}

impl View for JWK {
    type V = JwkView;

    open spec fn view(&self) -> JwkView {
        JwkView {
            kty: self.kty@,
            crv: opt_view(self.crv),
            x: opt_view(self.x),
            y: opt_view(self.y),
            d: opt_view(self.d),
            n: opt_view(self.n),
            e: opt_view(self.e),
            kid: opt_view(self.kid),
            alg: opt_view(self.alg),
            extra: members_view(self.extra@),
        }
    }
}

/// The member names that have a field of their own.
pub open spec fn is_jwk_field(name: Seq<char>) -> bool {
    name == "kty"@ || name == "crv"@ || name == "x"@ || name == "y"@ || name == "d"@ || name
        == "n"@ || name == "e"@ || name == "kid"@ || name == "alg"@
}

/// The members without a field of their own, in order.
pub open spec fn extra_members(m: Seq<(Seq<char>, Seq<u8>)>) -> Seq<(Seq<char>, Seq<u8>)>
    decreases m.len(),
{
    if m.len() == 0 {
        seq![]
    } else {
        extra_members(m.drop_last()) + if is_jwk_field(m.last().0) {
            seq![]
        } else {
            seq![m.last()]
        }
    }
}

/// An optional member is absent, a string, or null.
pub open spec fn optional_ok(m: Seq<(Seq<char>, Seq<u8>)>, name: Seq<char>) -> bool {
    match member(m, name) {
        None => true,
        Some(t) => json_value_of(t) matches Some(JsonView::Str(_)) || json_value_of(t) == Some(
            JsonView::Null,
        ),
    }
}

pub open spec fn invalid_member(name: Seq<char>) -> AAuthErrorView {
    AAuthErrorView::InvalidKey("invalid jwk member: "@ + name)
}

/// A key read from the members of a JSON object: `kty` must be a string, the
/// other fields strings or null where present; the first member out of that
/// rule, in the order of the fields, is the error.
pub open spec fn jwk_from_members(m: Seq<(Seq<char>, Seq<u8>)>) -> Result<JwkView, AAuthErrorView> {
    if member(m, "kty"@) is None {
        Err(AAuthErrorView::InvalidKey("missing jwk member: kty"@))
    } else if string_member(m, "kty"@) is None {
        Err(invalid_member("kty"@))
    } else if !optional_ok(m, "crv"@) {
        Err(invalid_member("crv"@))
    } else if !optional_ok(m, "x"@) {
        Err(invalid_member("x"@))
    } else if !optional_ok(m, "y"@) {
        Err(invalid_member("y"@))
    } else if !optional_ok(m, "d"@) {
        Err(invalid_member("d"@))
    } else if !optional_ok(m, "n"@) {
        Err(invalid_member("n"@))
    } else if !optional_ok(m, "e"@) {
        Err(invalid_member("e"@))
    } else if !optional_ok(m, "kid"@) {
        Err(invalid_member("kid"@))
    } else if !optional_ok(m, "alg"@) {
        Err(invalid_member("alg"@))
    } else {
        Ok(
            JwkView {
                kty: string_member(m, "kty"@).unwrap(),
                crv: string_member(m, "crv"@),
                x: string_member(m, "x"@),
                y: string_member(m, "y"@),
                d: string_member(m, "d"@),
                n: string_member(m, "n"@),
                e: string_member(m, "e"@),
                kid: string_member(m, "kid"@),
                alg: string_member(m, "alg"@),
                extra: extra_members(m),
            },
        )
    }
}

/// The optional member `name`: `Ok(None)` where absent or null.
fn read_optional(m: &Vec<(String, Vec<u8>)>, name: &str) -> (r: Result<Option<String>, AAuthError>)
    ensures
        optional_ok(members_view(m@), name@) ==> (r matches Ok(v) && opt_view(v) == string_member(
            members_view(m@),
            name@,
        )),
        !optional_ok(members_view(m@), name@) ==> (r matches Err(e) && e@ == invalid_member(name@)),
{
    match find_member(m, name) {
        None => Ok(None),
        Some(text) => match parse_json(text.as_slice()) {
            Ok(JsonValue::Str(s)) => Ok(Some(s)),
            Ok(JsonValue::Null) => Ok(None),
            _ => Err(AAuthError::InvalidKey(concat_str("invalid jwk member: ", name))),
        },
    }
}

/// The members without a field of their own, in order.
fn extra_members_of(m: &Vec<(String, Vec<u8>)>) -> (r: Vec<(String, Vec<u8>)>)
    ensures
        members_view(r@) == extra_members(members_view(m@)),
{
    let ghost mv = members_view(m@);
    let mut r: Vec<(String, Vec<u8>)> = Vec::new();
    let kty = String::from_str("kty");
    let crv = String::from_str("crv");
    let x = String::from_str("x");
    let y = String::from_str("y");
    let d = String::from_str("d");
    let n = String::from_str("n");
    let e = String::from_str("e");
    let kid = String::from_str("kid");
    let alg = String::from_str("alg");
    let mut i: usize = 0;
    assert(mv.take(0) =~= Seq::<(Seq<char>, Seq<u8>)>::empty());
    while i < m.len()
        invariant
            0 <= i <= m@.len(),
            mv == members_view(m@),
            members_view(r@) == extra_members(mv.take(i as int)),
            kty@ == "kty"@ && crv@ == "crv"@ && x@ == "x"@ && y@ == "y"@ && d@ == "d"@ && n@
                == "n"@ && e@ == "e"@ && kid@ == "kid"@ && alg@ == "alg"@,
        decreases m@.len() - i,
    {
        let name = &m[i].0;
        assert(mv.take(i + 1).drop_last() =~= mv.take(i as int));
        assert(mv.take(i + 1).last() == mv[i as int]);
        let known = *name == kty || *name == crv || *name == x || *name == y || *name == d
            || *name == n || *name == e || *name == kid || *name == alg;
        if !known {
            let ghost before = members_view(r@);
            r.push((m[i].0.clone(), m[i].1.clone()));
            assert(members_view(r@) =~= before + seq![mv[i as int]]);
        } else {
            assert(extra_members(mv.take(i + 1)) =~= extra_members(mv.take(i as int)));
        }
        i = i + 1;
    }
    assert(mv.take(m@.len() as int) =~= mv);
    r
}

impl JWK {
    /// Reads a key from the members of a JSON object (see `jwk_from_members`).
    pub fn from_members(m: &Vec<(String, Vec<u8>)>) -> (r: Result<JWK, AAuthError>)
        ensures
            match (r, jwk_from_members(members_view(m@))) {
                (Ok(k), Ok(v)) => k@ == v,
                (Err(e), Err(v)) => e@ == v,
                _ => false,
            },
    {
        let kty = match find_member(m, "kty") {
            None => {
                return Err(AAuthError::InvalidKey(String::from_str("missing jwk member: kty")));
            },
            Some(text) => match parse_json(text.as_slice()) {
                Ok(JsonValue::Str(s)) => s,
                _ => {
                    return Err(AAuthError::InvalidKey(concat_str("invalid jwk member: ", "kty")));
                },
            },
        };
        let crv = match read_optional(m, "crv") {
            Ok(v) => v,
            Err(e) => {
                return Err(e);
            },
        };
        let x = match read_optional(m, "x") {
            Ok(v) => v,
            Err(e) => {
                return Err(e);
            },
        };
        let y = match read_optional(m, "y") {
            Ok(v) => v,
            Err(e) => {
                return Err(e);
            },
        };
        let d = match read_optional(m, "d") {
            Ok(v) => v,
            Err(e) => {
                return Err(e);
            },
        };
        let n = match read_optional(m, "n") {
            Ok(v) => v,
            Err(e) => {
                return Err(e);
            },
        };
        let e = match read_optional(m, "e") {
            Ok(v) => v,
            Err(err) => {
                return Err(err);
            },
        };
        let kid = match read_optional(m, "kid") {
            Ok(v) => v,
            Err(err) => {
                return Err(err);
            },
        };
        let alg = match read_optional(m, "alg") {
            Ok(v) => v,
            Err(err) => {
                return Err(err);
            },
        };
        let extra = extra_members_of(m);
        Ok(JWK { kty, crv, x, y, d, n, e, kid, alg, extra })
    }
}

/// A key read from the members of a JSON object holds in each field the string
/// member of the same name (`kty` always, the others where present), and the
/// members without a field of their own in `extra`.
pub proof fn jwk_fields_are_members(m: Seq<(Seq<char>, Seq<u8>)>)
    ensures
        jwk_from_members(m) matches Ok(k) ==> {
            &&& string_member(m, "kty"@) == Some(k.kty)
            &&& k.crv == string_member(m, "crv"@)
            &&& k.x == string_member(m, "x"@)
            &&& k.y == string_member(m, "y"@)
            &&& k.d == string_member(m, "d"@)
            &&& k.n == string_member(m, "n"@)
            &&& k.e == string_member(m, "e"@)
            &&& k.kid == string_member(m, "kid"@)
            &&& k.alg == string_member(m, "alg"@)
            &&& k.extra == extra_members(m)
        },
{
}

/// A key is read from the members of a JSON object exactly when `kty` is a
/// string and each other field is absent, a string, or null.
pub proof fn jwk_read_exactly_when_well_typed(m: Seq<(Seq<char>, Seq<u8>)>)
    ensures
        jwk_from_members(m) is Ok <==> {
            &&& string_member(m, "kty"@) is Some
            &&& optional_ok(m, "crv"@)
            &&& optional_ok(m, "x"@)
            &&& optional_ok(m, "y"@)
            &&& optional_ok(m, "d"@)
            &&& optional_ok(m, "n"@)
            &&& optional_ok(m, "e"@)
            &&& optional_ok(m, "kid"@)
            &&& optional_ok(m, "alg"@)
        },
{
}

} // verus!
