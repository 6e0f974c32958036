//! The Signature-Key header: parsing it in its two formats, and building it
//! for the `hwk`, `jwks_uri` and `jwt` schemes.
//!
//! Formats read:
//!   `label=scheme;param1=val1;param2=val2`
//!   `label=(scheme=hwk kty="OKP" crv="Ed25519" x="...")` (earlier form)

use vstd::prelude::*;
use vstd::string::*;

use crate::errors::{result_view, AAuthError, AAuthErrorView};
use crate::jwk::{opt_view, JWK};
use crate::params::Params;
use crate::text::{
    flush, lemma_find_char_found, lemma_quoted_words_quote, lemma_quoted_words_run,
    lemma_quoted_words_space, quoted_words_from,
    is_ws, lemma_find_char, strip_char, trim_end_by, trim_start_by,
    chars_of, concat_str, find_char, quoted_word_ranges, quoted_words, ranges_view, ranges_within,
    split_char, split_ranges, substring, trim, trim_quotes, trim_range, find_in_range,
};

verus! {

/// A parsed Signature-Key header.
#[derive(Debug, Clone)]
pub struct SignatureKey {
    pub label: String,
    /// "hwk", "jwks_uri", "jwt", "x509"
    pub scheme: String,
    pub params: Params,
}

/// The mathematical value of a `SignatureKey`.
pub struct SignatureKeyView {
    pub label: Seq<char>,
    pub scheme: Seq<char>,
    pub params: Map<Seq<char>, Seq<char>>,
}

impl View for SignatureKey {
    type V = SignatureKeyView;

    open spec fn view(&self) -> SignatureKeyView {
        SignatureKeyView { label: self.label@, scheme: self.scheme@, params: self.params@ }
    }
}

/// A `name=value` parameter: the name, and the value without its quotes; white
/// space around both is dropped. `None` where the text holds no `=`.
pub open spec fn param_of(part: Seq<char>) -> Option<(Seq<char>, Seq<char>)> {
    match find_char(part, '=') {
        Some(i) => Some((trim(part.take(i)), trim_quotes(trim(part.skip(i + 1))))),
        None => None,
    }
}

/// The parameters of the `;`-separated parts, each inserted in turn into `acc`;
/// parts without `=` are skipped.
pub open spec fn semicolon_params(parts: Seq<Seq<char>>, acc: Map<Seq<char>, Seq<char>>) -> Map<
    Seq<char>,
    Seq<char>,
>
    decreases parts.len(),
{
    if parts.len() == 0 {
        acc
    } else {
        semicolon_params(
            parts.drop_first(),
            match param_of(parts[0]) {
                Some((k, v)) => acc.insert(k, v),
                None => acc,
            },
        )
    }
}

/// The `label=scheme;param=value;...` format: the scheme is the first part.
pub open spec fn semicolon_format(label: Seq<char>, value: Seq<char>) -> SignatureKeyView {
    let parts = split_char(value, ';');
    SignatureKeyView {
        label,
        scheme: trim(parts[0]),
        params: semicolon_params(parts.drop_first(), Map::empty()),
    }
}

/// The words of the parenthesized format read in turn: `scheme=...` sets the
/// scheme, another `name=value` is a parameter, a word without `=` is refused
/// (with the word) while no scheme has been read and skipped after that.
pub open spec fn parenthesized_words(
    words: Seq<Seq<char>>,
    scheme: Seq<char>,
    params: Map<Seq<char>, Seq<char>>,
) -> Result<(Seq<char>, Map<Seq<char>, Seq<char>>), Seq<char>>
    decreases words.len(),
{
    if words.len() == 0 {
        Ok((scheme, params))
    } else {
        match param_of(words[0]) {
            Some((k, v)) => if k == "scheme"@ {
                parenthesized_words(words.drop_first(), v, params)
            } else {
                parenthesized_words(words.drop_first(), scheme, params.insert(k, v))
            },
            None => if scheme.len() == 0 {
                Err(words[0])
            } else {
                parenthesized_words(words.drop_first(), scheme, params)
            },
        }
    }
}

/// The `label=(scheme=... name="value" ...)` format, `inner` being the text
/// between the parentheses; `Err` holds the message of `InvalidHeader`.
pub open spec fn parenthesized_format(label: Seq<char>, inner: Seq<char>) -> Result<
    SignatureKeyView,
    Seq<char>,
> {
    match parenthesized_words(quoted_words(inner), seq![], Map::empty()) {
        Err(w) => Err("missing scheme: "@ + w),
        Ok((scheme, params)) => if scheme.len() == 0 {
            Err("missing scheme"@)
        } else {
            Ok(SignatureKeyView { label, scheme, params })
        },
    }
}

/// A Signature-Key header: `label=value`, where the value is parenthesized or
/// `;`-separated. `Err` holds the message of `InvalidHeader`.
pub open spec fn signature_key_of(header: Seq<char>) -> Result<SignatureKeyView, Seq<char>> {
    match find_char(header, '=') {
        None => Err("invalid signature-key header: "@ + header),
        Some(i) => {
            let label = trim(header.take(i));
            let value = trim(header.skip(i + 1));
            if value.len() > 0 && value[0] == '(' && value.last() == ')' {
                parenthesized_format(label, value.subrange(1, value.len() - 1))
            } else {
                Ok(semicolon_format(label, value))
            }
        },
    }
}

/// How a parse result relates to its mathematical value: a refusal is an
/// `InvalidHeader` error with the message.
pub open spec fn parsed_as(r: Result<SignatureKey, AAuthError>, m: Result<SignatureKeyView, Seq<char>>) -> bool {
    result_view(r) == match m {
        Ok(k) => Ok(k),
        Err(msg) => Err(AAuthErrorView::InvalidHeader(msg)),
    }
}

/// The parameter in `lo..hi` of `v`, as strings taken from `s`.
fn param_in(s: &str, v: &Vec<char>, lo: usize, hi: usize) -> (r: Option<(String, String)>)
    requires
        v@ == s@,
        lo <= hi <= v@.len(),
    ensures
        match param_of(v@.subrange(lo as int, hi as int)) {
            Some((k, val)) => r matches Some(p) && p.0@ == k && p.1@ == val,
            None => r is None,
        },
{
    match find_in_range(v, lo, hi, '=') {
        Some(e) => {
            let (ka, kb) = trim_range(v, lo, e, false);
            let (va0, vb0) = trim_range(v, e + 1, hi, false);
            let (va, vb) = trim_range(v, va0, vb0, true);
            proof {
                let part = v@.subrange(lo as int, hi as int);
                assert(part.take(e - lo) =~= v@.subrange(lo as int, e as int));
                assert(part.skip(e - lo + 1) =~= v@.subrange(e + 1, hi as int));
            }
            Some((substring(s, ka, kb), substring(s, va, vb)))
        },
        None => None,
    }
}

fn parse_parenthesized_format(label: String, inner: &str) -> (r: Result<SignatureKey, AAuthError>)
    ensures
        parsed_as(r, parenthesized_format(label@, inner@)),
{
    let v = chars_of(inner);
    let words = quoted_word_ranges(&v, 0, v.len());
    assert(v@.subrange(0, v@.len() as int) =~= v@);
    let ghost ws = ranges_view(v@, words@);
    let mut scheme = String::new();
    let mut params = Params::new();
    let scheme_name = String::from_str("scheme");
    assert(ws.skip(0) =~= ws);
    for j in 0..words.len()
        invariant
            v@ == inner@,
            ws == ranges_view(v@, words@),
            ws == quoted_words(inner@),
            ranges_within(words@, 0, v@.len() as int),
            scheme_name@ == "scheme"@,
            parenthesized_words(ws, seq![], Map::empty()) == parenthesized_words(
                ws.skip(j as int),
                scheme@,
                params@,
            ),
    {
        let (a, b) = words[j];
        assert(ws[j as int] == v@.subrange(a as int, b as int));
        assert(ws.skip(j as int).drop_first() =~= ws.skip(j + 1));
        match param_in(inner, &v, a, b) {
            Some((key, val)) => {
                if key == scheme_name {
                    scheme = val;
                } else {
                    params.insert(key, val);
                }
            },
            None => {
                if scheme.as_str().is_empty() {
                    let word = substring(inner, a, b);
                    return Err(AAuthError::InvalidHeader(concat_str("missing scheme: ", word.as_str())));
                }
            },
        }
    }
    if scheme.as_str().is_empty() {
        return Err(AAuthError::InvalidHeader(String::from_str("missing scheme")));
    }
    Ok(SignatureKey { label, scheme, params })
}

/// The parameters of the `;`-separated parts `parts[1..]` of `s`.
fn semicolon_params_in(s: &str, v: &Vec<char>, parts: &Vec<(usize, usize)>) -> (p: Params)
    requires
        v@ == s@,
        parts@.len() >= 1,
        ranges_within(parts@, 0, v@.len() as int),
    ensures
        p@ == semicolon_params(ranges_view(v@, parts@).drop_first(), Map::empty()),
{
    let ghost ps = ranges_view(v@, parts@);
    let mut params = Params::new();
    assert(ps.drop_first() =~= ps.skip(1));
    let mut j: usize = 1;
    while j < parts.len()
        invariant
            v@ == s@,
            1 <= j <= parts@.len(),
            ps == ranges_view(v@, parts@),
            ranges_within(parts@, 0, v@.len() as int),
            semicolon_params(ps.drop_first(), Map::empty()) == semicolon_params(
                ps.skip(j as int),
                params@,
            ),
        decreases parts@.len() - j,
    {
        let (a, b) = parts[j];
        assert(ps[j as int] == v@.subrange(a as int, b as int));
        assert(ps.skip(j as int).drop_first() =~= ps.skip(j + 1));
        match param_in(s, v, a, b) {
            Some((key, val)) => {
                params.insert(key, val);
            },
            None => {},
        }
        j = j + 1;
    }
    assert(ps.skip(j as int) =~= Seq::<Seq<char>>::empty());
    params
}

fn parse_semicolon_format(label: String, value: &str) -> (r: Result<SignatureKey, AAuthError>)
    ensures
        parsed_as(r, Ok(semicolon_format(label@, value@))),
{
    let v = chars_of(value);
    let parts = split_ranges(&v, 0, v.len(), ';');
    assert(v@.subrange(0, v@.len() as int) =~= v@);
    let (a0, b0) = parts[0];
    assert(ranges_view(v@, parts@)[0] == v@.subrange(a0 as int, b0 as int));
    let (sa, sb) = trim_range(&v, a0, b0, false);
    let scheme = substring(value, sa, sb);
    let params = semicolon_params_in(value, &v, &parts);
    Ok(SignatureKey { label, scheme, params })
}

/// Parses a Signature-Key header, in the `label=scheme;name="value";...` format
/// or the parenthesized `label=(scheme=... name="value" ...)` one.
pub fn parse_signature_key(header: &str) -> (r: Result<SignatureKey, AAuthError>)
    ensures
        parsed_as(r, signature_key_of(header@)),
{
    let v = chars_of(header);
    let n = v.len();
    assert(v@.subrange(0, n as int) =~= v@);
    match find_in_range(&v, 0, n, '=') {
        None => Err(AAuthError::InvalidHeader(concat_str("invalid signature-key header: ", header))),
        Some(e) => {
            let (la, lb) = trim_range(&v, 0, e, false);
            let (va, vb) = trim_range(&v, e + 1, n, false);
            assert(v@.take(e as int) =~= v@.subrange(0, e as int));
            assert(v@.skip(e + 1) =~= v@.subrange(e + 1, n as int));
            let label = substring(header, la, lb);
            if va < vb && v[va] == '(' && v[vb - 1] == ')' {
                let ghost value = v@.subrange(va as int, vb as int);
                assert(value.subrange(1, value.len() - 1) =~= v@.subrange(va + 1, vb - 1));
                let inner = header.substring_char(va + 1, vb - 1);
                parse_parenthesized_format(label, inner)
            } else {
                let value = header.substring_char(va, vb);
                parse_semicolon_format(label, value)
            }
        },
    }
}


/// One `;name="value"` parameter of the built format.
pub open spec fn param_text(p: (Seq<char>, Seq<char>)) -> Seq<char> {
    seq![';'] + p.0 + "=\""@ + p.1 + "\""@
}

/// The parameters, in order, in the built format.
pub open spec fn params_text(ps: Seq<(Seq<char>, Seq<char>)>) -> Seq<char>
    decreases ps.len(),
{
    if ps.len() == 0 {
        seq![]
    } else {
        param_text(ps[0]) + params_text(ps.drop_first())
    }
}

/// A header in the `label=scheme;name="value";...` format.
pub open spec fn semicolon_header(
    label: Seq<char>,
    scheme: Seq<char>,
    ps: Seq<(Seq<char>, Seq<char>)>,
) -> Seq<char> {
    label + seq!['='] + scheme + params_text(ps)
}

/// The map that inserting the parameters in order into `acc` gives.
pub open spec fn params_map(ps: Seq<(Seq<char>, Seq<char>)>, acc: Map<Seq<char>, Seq<char>>) -> Map<
    Seq<char>,
    Seq<char>,
>
    decreases ps.len(),
{
    if ps.len() == 0 {
        acc
    } else {
        params_map(ps.drop_first(), acc.insert(ps[0].0, ps[0].1))
    }
}

/// The parameters of an `hwk` header for a key: `kty`, then `crv` and `x`
/// where the key has them.
pub open spec fn hwk_params(kty: Seq<char>, crv: Option<Seq<char>>, x: Option<Seq<char>>) -> Seq<
    (Seq<char>, Seq<char>),
> {
    seq![("kty"@, kty)] + match crv {
        Some(c) => seq![("crv"@, c)],
        None => seq![],
    } + match x {
        Some(v) => seq![("x"@, v)],
        None => seq![],
    }
}

pub open spec fn jwks_params(id: Seq<char>, kid: Seq<char>, dwk: Seq<char>) -> Seq<
    (Seq<char>, Seq<char>),
> {
    seq![("id"@, id), ("dwk"@, dwk), ("kid"@, kid)]
}

pub open spec fn jwt_params(jwt: Seq<char>) -> Seq<(Seq<char>, Seq<char>)> {
    seq![("jwt"@, jwt)]
}

proof fn lemma_params_text_one(p: (Seq<char>, Seq<char>))
    ensures
        params_text(seq![p]) == param_text(p),
{
    reveal_with_fuel(params_text, 2);
    assert(seq![p].drop_first() =~= Seq::<(Seq<char>, Seq<char>)>::empty());
    assert(params_text(seq![p]) =~= param_text(p));
}

proof fn lemma_params_text_append(a: Seq<(Seq<char>, Seq<char>)>, b: Seq<(Seq<char>, Seq<char>)>)
    ensures
        params_text(a + b) == params_text(a) + params_text(b),
    decreases a.len(),
{
    if a.len() == 0 {
        assert(a + b =~= b);
        assert(params_text(a) + params_text(b) =~= params_text(b));
    } else {
        lemma_params_text_append(a.drop_first(), b);
        assert((a + b).drop_first() =~= a.drop_first() + b);
        assert(params_text(a + b) =~= params_text(a) + params_text(b));
    }
}

/// Appends `;name="value"` to `out`.
fn push_param(out: &mut String, name: &str, value: &str)
    ensures
        final(out)@ == old(out)@ + param_text((name@, value@)),
{
    out.append(";");
    out.append(name);
    out.append("=\"");
    out.append(value);
    out.append("\"");
    proof {
        reveal_strlit(";");
    }
    assert(final(out)@ =~= old(out)@ + param_text((name@, value@)));
}

/// Builds the Signature-Key header for the `hwk` scheme (RFC 8941 Structured
/// Fields format): `sig1=hwk;kty="OKP";crv="Ed25519";x="..."`.
pub fn build_signature_key_hwk(label: &str, jwk: &JWK) -> (r: Result<String, AAuthError>)
    ensures
        r matches Ok(h) && h@ == semicolon_header(
            label@,
            "hwk"@,
            hwk_params(jwk.kty@, opt_view(jwk.crv), opt_view(jwk.x)),
        ),
{
    let mut out = String::from_str(label);
    out.append("=hwk");
    proof {
        reveal_strlit("=hwk");
        reveal_strlit("hwk");
    }
    let ghost head = out@;
    push_param(&mut out, "kty", jwk.kty.as_str());
    let ghost mut ps: Seq<(Seq<char>, Seq<char>)> = seq![("kty"@, jwk.kty@)];
    proof {
        lemma_params_text_one(("kty"@, jwk.kty@));
    }
    assert(out@ =~= head + params_text(ps));
    match &jwk.crv {
        Some(c) => {
            push_param(&mut out, "crv", c.as_str());
            proof {
                lemma_params_text_one(("crv"@, c@));
                lemma_params_text_append(ps, seq![("crv"@, c@)]);
                ps = ps + seq![("crv"@, c@)];
            }
            assert(out@ =~= head + params_text(ps));
        },
        None => {},
    }
    match &jwk.x {
        Some(x) => {
            push_param(&mut out, "x", x.as_str());
            proof {
                lemma_params_text_one(("x"@, x@));
                lemma_params_text_append(ps, seq![("x"@, x@)]);
                ps = ps + seq![("x"@, x@)];
            }
            assert(out@ =~= head + params_text(ps));
        },
        None => {},
    }
    assert(ps =~= hwk_params(jwk.kty@, opt_view(jwk.crv), opt_view(jwk.x)));
    Ok(out)
}

/// Builds the Signature-Key header for the `jwks_uri` scheme (RFC 8941
/// Structured Fields format): `sig1=jwks_uri;id="https://...";dwk="aauth-agent.json";kid="key-1"`.
///
/// `dwk` names the well-known metadata document used to discover the JWKS.
pub fn build_signature_key_jwks(label: &str, id: &str, kid: &str, dwk: &str) -> (r: String)
    ensures
        r@ == semicolon_header(label@, "jwks_uri"@, jwks_params(id@, kid@, dwk@)),
{
    let mut out = String::from_str(label);
    out.append("=jwks_uri");
    push_param(&mut out, "id", id);
    push_param(&mut out, "dwk", dwk);
    push_param(&mut out, "kid", kid);
    proof {
        reveal_strlit("=jwks_uri");
        reveal_strlit("jwks_uri");
        let ps = jwks_params(id@, kid@, dwk@);
        reveal_with_fuel(params_text, 4);
        assert(ps.drop_first() =~= seq![ps[1], ps[2]]);
        assert(ps.drop_first().drop_first() =~= seq![ps[2]]);
        assert(ps.drop_first().drop_first().drop_first() =~= Seq::<(Seq<char>, Seq<char>)>::empty());
        assert(params_text(ps) =~= param_text(ps[0]) + param_text(ps[1]) + param_text(ps[2]));
    }
    assert(out@ =~= semicolon_header(label@, "jwks_uri"@, jwks_params(id@, kid@, dwk@)));
    out
}


/// Builds the Signature-Key header for the `jwt` scheme (RFC 8941 Structured
/// Fields format): `sig1=jwt;jwt="eyJ..."`.
pub fn build_signature_key_jwt(label: &str, jwt: &str) -> (r: String)
    ensures
        r@ == semicolon_header(label@, "jwt"@, jwt_params(jwt@)),
{
    let mut out = String::from_str(label);
    out.append("=jwt");
    push_param(&mut out, "jwt", jwt);
    proof {
        reveal_strlit("=jwt");
        reveal_strlit("jwt");
        lemma_params_text_one(("jwt"@, jwt@));
    }
    assert(out@ =~= semicolon_header(label@, "jwt"@, jwt_params(jwt@)));
    out
}

/// No white space at either end.
pub open spec fn bare(s: Seq<char>) -> bool {
    s.len() == 0 || (!is_ws(s[0]) && !is_ws(s.last()))
}

/// No double quote at either end.
pub open spec fn unquoted_ends(s: Seq<char>) -> bool {
    s.len() == 0 || (s[0] != '"' && s.last() != '"')
}

/// The parameters can stand in the built format and be read back: names
/// without `;`, `=` or white space at their ends, values without `;` or
/// double quotes at their ends.
pub open spec fn readable_params(ps: Seq<(Seq<char>, Seq<char>)>) -> bool {
    forall|i: int|
        0 <= i < ps.len() ==> {
            let p = #[trigger] ps[i];
            &&& !p.0.contains(';')
            &&& !p.0.contains('=')
            &&& bare(p.0)
            &&& !p.1.contains(';')
            &&& unquoted_ends(p.1)
        }
}

/// A label and a scheme that can stand in the built format and be read back.
pub open spec fn readable_head(label: Seq<char>, scheme: Seq<char>) -> bool {
    &&& !label.contains('=')
    &&& bare(label)
    &&& scheme.len() > 0
    &&& scheme[0] != '('
    &&& !scheme.contains(';')
    &&& bare(scheme)
}

proof fn lemma_trim_fixed(s: Seq<char>, quote: bool)
    requires
        s.len() == 0 || (!strip_char(quote, s[0]) && !strip_char(quote, s.last())),
    ensures
        trim_end_by(trim_start_by(s, quote), quote) == s,
{
}

proof fn lemma_trim_quotes_wrapped(v: Seq<char>)
    requires
        unquoted_ends(v),
    ensures
        trim_quotes(seq!['"'] + v + seq!['"']) == v,
{
    let w = seq!['"'] + v + seq!['"'];
    let u = v + seq!['"'];
    assert(w.drop_first() =~= u);
    assert(w[0] == '"');
    assert(trim_start_by(w, true) == trim_start_by(u, true));
    if v.len() == 0 {
        assert(u.drop_first() =~= Seq::<char>::empty());
        assert(u[0] == '"');
        assert(trim_start_by(u, true) == trim_start_by(Seq::<char>::empty(), true));
        assert(trim_start_by(u, true) == Seq::<char>::empty());
        assert(trim_end_by(Seq::<char>::empty(), true) == Seq::<char>::empty());
    } else {
        assert(u[0] == v[0]);
        assert(trim_start_by(u, true) == u);
        assert(u.drop_last() =~= v);
        assert(u.last() == '"');
        assert(trim_end_by(u, true) == trim_end_by(v, true));
        assert(trim_end_by(v, true) == v);
    }
}

/// The text of one built parameter, without the `;` before it.
pub open spec fn param_body(p: (Seq<char>, Seq<char>)) -> Seq<char> {
    p.0 + "=\""@ + p.1 + "\""@
}

proof fn lemma_param_of_body(p: (Seq<char>, Seq<char>))
    requires
        !p.0.contains('='),
        bare(p.0),
        unquoted_ends(p.1),
    ensures
        param_of(param_body(p)) == Some(p),
{
    reveal_strlit("=\"");
    reveal_strlit("\"");
    let b = param_body(p);
    let n = p.0.len() as int;
    assert(b =~= p.0 + seq!['='] + (seq!['"'] + p.1 + seq!['"']));
    assert forall|j: int| 0 <= j < n implies b[j] != '=' by {
        assert(b[j] == p.0[j]);
    }
    lemma_find_char(b, '=', n);
    assert(b.take(n) =~= p.0);
    assert(b.skip(n + 1) =~= seq!['"'] + p.1 + seq!['"']);
    lemma_trim_fixed(p.0, false);
    let w = seq!['"'] + p.1 + seq!['"'];
    assert(w[0] == '"');
    assert(w.last() == '"');
    lemma_trim_fixed(w, false);
    lemma_trim_quotes_wrapped(p.1);
}

proof fn lemma_split_after(a: Seq<char>, b: Seq<char>)
    requires
        !a.contains(';'),
    ensures
        split_char(a + seq![';'] + b, ';') == seq![a] + split_char(b, ';'),
{
    let s = a + seq![';'] + b;
    assert forall|j: int| 0 <= j < a.len() implies s[j] != ';' by {
        assert(s[j] == a[j]);
    }
    lemma_find_char(s, ';', a.len() as int);
    assert(s.take(a.len() as int) =~= a);
    assert(s.skip(a.len() as int + 1) =~= b);
}

proof fn lemma_split_none(a: Seq<char>)
    requires
        !a.contains(';'),
    ensures
        split_char(a, ';') == seq![a],
{
    lemma_find_char(a, ';', a.len() as int);
}

proof fn lemma_split_params(x: Seq<char>, ps: Seq<(Seq<char>, Seq<char>)>)
    requires
        !x.contains(';'),
        readable_params(ps),
    ensures
        split_char(x + params_text(ps), ';') == seq![x] + ps.map_values(
            |p: (Seq<char>, Seq<char>)| param_body(p),
        ),
    decreases ps.len(),
{
    reveal_strlit("=\"");
    reveal_strlit("\"");
    let bodies = ps.map_values(|p: (Seq<char>, Seq<char>)| param_body(p));
    if ps.len() == 0 {
        assert(x + params_text(ps) =~= x);
        lemma_split_none(x);
        assert(seq![x] + bodies =~= seq![x]);
    } else {
        let p = ps[0];
        let rest = ps.drop_first();
        assert(readable_params(rest)) by {
            assert forall|i: int| 0 <= i < rest.len() implies #[trigger] rest[i] == ps[i + 1] by {}
        }
        let body = param_body(p);
        assert(!body.contains(';')) by {
            assert(body =~= p.0 + seq!['=', '"'] + p.1 + seq!['"']);
            if body.contains(';') {
                let j = choose|j: int| 0 <= j < body.len() && body[j] == ';';
                if j < p.0.len() {
                    assert(p.0[j] == ';');
                } else if p.0.len() + 2 <= j < p.0.len() + 2 + p.1.len() {
                    assert(p.1[j - p.0.len() - 2] == ';');
                }
            }
        }
        lemma_split_params(body, rest);
        assert(x + params_text(ps) =~= x + seq![';'] + (body + params_text(rest)));
        lemma_split_after(x, body + params_text(rest));
        assert(bodies =~= seq![body] + rest.map_values(|p: (Seq<char>, Seq<char>)| param_body(p)));
        assert(seq![x] + bodies =~= seq![x] + (seq![body] + rest.map_values(
            |p: (Seq<char>, Seq<char>)| param_body(p),
        )));
    }
}

proof fn lemma_params_of_bodies(ps: Seq<(Seq<char>, Seq<char>)>, acc: Map<Seq<char>, Seq<char>>)
    requires
        readable_params(ps),
    ensures
        semicolon_params(ps.map_values(|p: (Seq<char>, Seq<char>)| param_body(p)), acc)
            == params_map(ps, acc),
    decreases ps.len(),
{
    let bodies = ps.map_values(|p: (Seq<char>, Seq<char>)| param_body(p));
    if ps.len() > 0 {
        let rest = ps.drop_first();
        assert(readable_params(rest)) by {
            assert forall|i: int| 0 <= i < rest.len() implies #[trigger] rest[i] == ps[i + 1] by {}
        }
        assert(bodies.drop_first() =~= rest.map_values(|p: (Seq<char>, Seq<char>)| param_body(p)));
        let p = ps[0];
        assert(!p.0.contains('=') && bare(p.0) && unquoted_ends(p.1));
        lemma_param_of_body(p);
        lemma_params_of_bodies(rest, acc.insert(p.0, p.1));
    }
}

proof fn lemma_params_text_last(ps: Seq<(Seq<char>, Seq<char>)>)
    requires
        ps.len() > 0,
    ensures
        params_text(ps).len() > 0,
        params_text(ps).last() == '"',
    decreases ps.len(),
{
    reveal_strlit("\"");
    if ps.drop_first().len() > 0 {
        lemma_params_text_last(ps.drop_first());
    } else {
        assert(params_text(ps.drop_first()) =~= Seq::<char>::empty());
    }
}

/// Reading back a built `label=scheme;name="value";...` header gives the label,
/// the scheme, and the parameters inserted in order (a later name replacing
/// an earlier one).
pub proof fn parse_reads_back_semicolon_header(
    label: Seq<char>,
    scheme: Seq<char>,
    ps: Seq<(Seq<char>, Seq<char>)>,
)
    requires
        readable_head(label, scheme),
        readable_params(ps),
    ensures
        signature_key_of(semicolon_header(label, scheme, ps)) == Ok::<SignatureKeyView, Seq<char>>(
            SignatureKeyView { label, scheme, params: params_map(ps, Map::empty()) },
        ),
{
    let value = scheme + params_text(ps);
    let h = semicolon_header(label, scheme, ps);
    assert(h =~= label + seq!['='] + value);
    assert forall|j: int| 0 <= j < label.len() implies h[j] != '=' by {
        assert(h[j] == label[j]);
    }
    lemma_find_char(h, '=', label.len() as int);
    assert(h.take(label.len() as int) =~= label);
    assert(h.skip(label.len() as int + 1) =~= value);
    lemma_trim_fixed(label, false);
    assert(value[0] == scheme[0]);
    if ps.len() > 0 {
        lemma_params_text_last(ps);
        assert(value.last() == params_text(ps).last());
    } else {
        assert(value =~= scheme);
    }
    lemma_trim_fixed(value, false);
    lemma_split_params(scheme, ps);
    let bodies = ps.map_values(|p: (Seq<char>, Seq<char>)| param_body(p));
    assert((seq![scheme] + bodies)[0] == scheme);
    assert((seq![scheme] + bodies).drop_first() =~= bodies);
    lemma_trim_fixed(scheme, false);
    lemma_params_of_bodies(ps, Map::empty());
}


/// The parameters, in order, as ` name="value"` words of the parenthesized
/// format.
pub open spec fn paren_params_text(ps: Seq<(Seq<char>, Seq<char>)>) -> Seq<char>
    decreases ps.len(),
{
    if ps.len() == 0 {
        seq![]
    } else {
        seq![' '] + param_body(ps[0]) + paren_params_text(ps.drop_first())
    }
}

/// A header in the parenthesized format `label=(scheme=... name="value" ...)`.
pub open spec fn parenthesized_header(
    label: Seq<char>,
    scheme: Seq<char>,
    ps: Seq<(Seq<char>, Seq<char>)>,
) -> Seq<char> {
    label + "=(scheme="@ + scheme + paren_params_text(ps) + ")"@
}

/// Parameters that can stand in the parenthesized format and be read back:
/// names other than `scheme`, without spaces, double quotes or `=`, and without
/// white space at their ends; values without double quotes.
pub open spec fn paren_readable_params(ps: Seq<(Seq<char>, Seq<char>)>) -> bool {
    forall|i: int|
        0 <= i < ps.len() ==> {
            let p = #[trigger] ps[i];
            &&& !p.0.contains(' ')
            &&& !p.0.contains('"')
            &&& !p.0.contains('=')
            &&& bare(p.0)
            &&& p.0 != "scheme"@
            &&& !p.1.contains('"')
        }
}

proof fn lemma_paren_readable_rest(ps: Seq<(Seq<char>, Seq<char>)>)
    requires
        ps.len() > 0,
        paren_readable_params(ps),
    ensures
        paren_readable_params(ps.drop_first()),
{
    let rest = ps.drop_first();
    assert forall|i: int| 0 <= i < rest.len() implies #[trigger] rest[i] == ps[i + 1] by {}
}

proof fn lemma_quoted_words_body(p: (Seq<char>, Seq<char>), rest: Seq<char>, cur: Seq<char>)
    requires
        !p.0.contains(' '),
        !p.0.contains('"'),
        !p.1.contains('"'),
    ensures
        quoted_words_from(param_body(p) + rest, cur, false) == quoted_words_from(
            rest,
            cur + param_body(p),
            false,
        ),
{
    reveal_strlit("=\"");
    reveal_strlit("\"");
    let a = p.0 + seq!['='];
    let q = seq!['"'];
    assert(param_body(p) + rest =~= a + (q + (p.1 + (q + rest))));
    assert forall|j: int| 0 <= j < a.len() implies #[trigger] a[j] != '"' && a[j] != ' ' by {
        if j < p.0.len() {
            assert(a[j] == p.0[j]);
        }
    }
    lemma_quoted_words_run(a, q + (p.1 + (q + rest)), cur, false);
    lemma_quoted_words_quote(p.1 + (q + rest), cur + a, false);
    lemma_quoted_words_run(p.1, q + rest, (cur + a).push('"'), true);
    lemma_quoted_words_quote(rest, (cur + a).push('"') + p.1, true);
    assert(((cur + a).push('"') + p.1).push('"') =~= cur + param_body(p));
}

proof fn lemma_paren_params_words(ps: Seq<(Seq<char>, Seq<char>)>, w: Seq<char>)
    requires
        w.len() > 0,
        paren_readable_params(ps),
    ensures
        quoted_words_from(paren_params_text(ps), w, false) == seq![w] + ps.map_values(
            |p: (Seq<char>, Seq<char>)| param_body(p),
        ),
    decreases ps.len(),
{
    let bodies = ps.map_values(|p: (Seq<char>, Seq<char>)| param_body(p));
    if ps.len() == 0 {
        assert(seq![w] + bodies =~= seq![w]);
    } else {
        reveal_strlit("=\"");
        let p = ps[0];
        let rest = ps.drop_first();
        let body = param_body(p);
        lemma_paren_readable_rest(ps);
        assert(paren_params_text(ps) =~= seq![' '] + (body + paren_params_text(rest)));
        lemma_quoted_words_space(body + paren_params_text(rest), w);
        lemma_quoted_words_body(p, paren_params_text(rest), seq![]);
        assert(Seq::<char>::empty() + body =~= body);
        assert(body.len() > 0);
        lemma_paren_params_words(rest, body);
        assert(bodies =~= seq![body] + rest.map_values(|p: (Seq<char>, Seq<char>)| param_body(p)));
        assert(flush(w) == seq![w]);
        assert(seq![w] + bodies =~= seq![w] + (seq![body] + rest.map_values(
            |p: (Seq<char>, Seq<char>)| param_body(p),
        )));
    }
}

proof fn lemma_paren_words_params(
    ps: Seq<(Seq<char>, Seq<char>)>,
    scheme: Seq<char>,
    acc: Map<Seq<char>, Seq<char>>,
)
    requires
        paren_readable_params(ps),
    ensures
        parenthesized_words(ps.map_values(|p: (Seq<char>, Seq<char>)| param_body(p)), scheme, acc)
            == Ok::<(Seq<char>, Map<Seq<char>, Seq<char>>), Seq<char>>(
            (scheme, params_map(ps, acc)),
        ),
    decreases ps.len(),
{
    let bodies = ps.map_values(|p: (Seq<char>, Seq<char>)| param_body(p));
    if ps.len() > 0 {
        let p = ps[0];
        let rest = ps.drop_first();
        lemma_paren_readable_rest(ps);
        assert(bodies.drop_first() =~= rest.map_values(|p: (Seq<char>, Seq<char>)| param_body(p)));
        if p.1.len() > 0 {
            assert(p.1[0] != '"');
            assert(p.1[p.1.len() - 1] != '"');
        }
        lemma_param_of_body(p);
        lemma_paren_words_params(rest, scheme, acc.insert(p.0, p.1));
    }
}

proof fn lemma_param_of_scheme(scheme: Seq<char>)
    requires
        bare(scheme),
        !scheme.contains('"'),
    ensures
        param_of("scheme="@ + scheme) == Some(("scheme"@, scheme)),
{
    reveal_strlit("scheme=");
    reveal_strlit("scheme");
    let w = "scheme="@ + scheme;
    assert forall|j: int| 0 <= j < 6 implies w[j] != '=' by {}
    assert(w[6] == '=');
    lemma_find_char(w, '=', 6);
    assert(w.take(6) =~= "scheme"@);
    assert(w.skip(7) =~= scheme);
    lemma_trim_fixed("scheme"@, false);
    lemma_trim_fixed(scheme, false);
    if scheme.len() > 0 {
        assert(scheme[0] != '"');
        assert(scheme[scheme.len() - 1] != '"');
    }
    lemma_trim_fixed(scheme, true);
}

/// Reading back a `label=(scheme=... name="value" ...)` header gives the label,
/// the scheme, and every parameter named other than `scheme`, with its value
/// unquoted, inserted in order (a later name replacing an earlier one).
pub proof fn parse_reads_back_parenthesized_header(
    label: Seq<char>,
    scheme: Seq<char>,
    ps: Seq<(Seq<char>, Seq<char>)>,
)
    requires
        !label.contains('='),
        bare(label),
        scheme.len() > 0,
        !scheme.contains(' '),
        !scheme.contains('"'),
        bare(scheme),
        paren_readable_params(ps),
    ensures
        signature_key_of(parenthesized_header(label, scheme, ps)) == Ok::<
            SignatureKeyView,
            Seq<char>,
        >(SignatureKeyView { label, scheme, params: params_map(ps, Map::empty()) }),
{
    reveal_strlit("=(scheme=");
    reveal_strlit(")");
    reveal_strlit("scheme=");
    let w0 = "scheme="@ + scheme;
    let inner = w0 + paren_params_text(ps);
    let value = seq!['('] + inner + seq![')'];
    let h = parenthesized_header(label, scheme, ps);
    assert(h =~= label + seq!['='] + value);
    assert forall|j: int| 0 <= j < label.len() implies h[j] != '=' by {
        assert(h[j] == label[j]);
    }
    lemma_find_char(h, '=', label.len() as int);
    assert(h.take(label.len() as int) =~= label);
    assert(h.skip(label.len() as int + 1) =~= value);
    lemma_trim_fixed(label, false);
    assert(value[0] == '(');
    assert(value.last() == ')');
    lemma_trim_fixed(value, false);
    assert(value.subrange(1, value.len() - 1) =~= inner);
    assert forall|j: int| 0 <= j < w0.len() implies #[trigger] w0[j] != '"' && w0[j] != ' ' by {
        if j >= 7 {
            assert(w0[j] == scheme[j - 7]);
        }
    }
    lemma_quoted_words_run(w0, paren_params_text(ps), seq![], false);
    assert(Seq::<char>::empty() + w0 =~= w0);
    lemma_paren_params_words(ps, w0);
    let bodies = ps.map_values(|p: (Seq<char>, Seq<char>)| param_body(p));
    let words = seq![w0] + bodies;
    assert(quoted_words(inner) == words);
    assert(words[0] == w0);
    assert(words.drop_first() =~= bodies);
    lemma_param_of_scheme(scheme);
    lemma_paren_words_params(ps, scheme, Map::empty());
}

/// A value that can stand in a built header and be read back unchanged.
pub open spec fn readable_value(v: Seq<char>) -> bool {
    !v.contains(';') && unquoted_ends(v)
}

proof fn lemma_readable_name(n: Seq<char>)
    requires
        n == "kty"@ || n == "crv"@ || n == "x"@ || n == "id"@ || n == "dwk"@ || n == "kid"@
            || n == "jwt"@,
    ensures
        !n.contains(';'),
        !n.contains('='),
        bare(n),
{
    reveal_strlit("kty");
    reveal_strlit("crv");
    reveal_strlit("x");
    reveal_strlit("id");
    reveal_strlit("dwk");
    reveal_strlit("kid");
    reveal_strlit("jwt");
}

proof fn lemma_readable_head(label: Seq<char>, scheme: Seq<char>)
    requires
        !label.contains('='),
        bare(label),
        scheme == "hwk"@ || scheme == "jwks_uri"@ || scheme == "jwt"@,
    ensures
        readable_head(label, scheme),
{
    reveal_strlit("hwk");
    reveal_strlit("jwks_uri");
    reveal_strlit("jwt");
}

/// The parameters that an `hwk` header carries for a key.
pub open spec fn hwk_map(kty: Seq<char>, crv: Option<Seq<char>>, x: Option<Seq<char>>) -> Map<
    Seq<char>,
    Seq<char>,
> {
    let m = Map::<Seq<char>, Seq<char>>::empty().insert("kty"@, kty);
    let m = match crv {
        Some(c) => m.insert("crv"@, c),
        None => m,
    };
    match x {
        Some(v) => m.insert("x"@, v),
        None => m,
    }
}

/// Reading back the `hwk` header built for a key gives the label, the scheme
/// `hwk` and the key's `kty`, `crv` and `x`.
pub proof fn parse_reads_back_hwk(
    label: Seq<char>,
    kty: Seq<char>,
    crv: Option<Seq<char>>,
    x: Option<Seq<char>>,
)
    requires
        !label.contains('='),
        bare(label),
        readable_value(kty),
        crv matches Some(c) ==> readable_value(c),
        x matches Some(v) ==> readable_value(v),
    ensures
        signature_key_of(semicolon_header(label, "hwk"@, hwk_params(kty, crv, x)))
            == Ok::<SignatureKeyView, Seq<char>>(
            SignatureKeyView { label, scheme: "hwk"@, params: hwk_map(kty, crv, x) },
        ),
{
    let ps = hwk_params(kty, crv, x);
    lemma_readable_head(label, "hwk"@);
    lemma_readable_name("kty"@);
    lemma_readable_name("crv"@);
    lemma_readable_name("x"@);
    assert(readable_params(ps));
    parse_reads_back_semicolon_header(label, "hwk"@, ps);
    reveal_with_fuel(params_map, 4);
    let e = Map::<Seq<char>, Seq<char>>::empty();
    match (crv, x) {
        (Some(c), Some(v)) => {
            assert(ps =~= seq![("kty"@, kty), ("crv"@, c), ("x"@, v)]);
            assert(ps.drop_first() =~= seq![("crv"@, c), ("x"@, v)]);
            assert(ps.drop_first().drop_first() =~= seq![("x"@, v)]);
        },
        (Some(c), None) => {
            assert(ps =~= seq![("kty"@, kty), ("crv"@, c)]);
            assert(ps.drop_first() =~= seq![("crv"@, c)]);
        },
        (None, Some(v)) => {
            assert(ps =~= seq![("kty"@, kty), ("x"@, v)]);
            assert(ps.drop_first() =~= seq![("x"@, v)]);
        },
        (None, None) => {
            assert(ps =~= seq![("kty"@, kty)]);
        },
    }
}

/// Reading back the `jwks_uri` header built for an agent gives the label, the
/// scheme `jwks_uri` and the `id`, `dwk` and `kid` it was built with.
pub proof fn parse_reads_back_jwks(label: Seq<char>, id: Seq<char>, kid: Seq<char>, dwk: Seq<char>)
    requires
        !label.contains('='),
        bare(label),
        readable_value(id),
        readable_value(kid),
        readable_value(dwk),
    ensures
        signature_key_of(semicolon_header(label, "jwks_uri"@, jwks_params(id, kid, dwk)))
            == Ok::<SignatureKeyView, Seq<char>>(
            SignatureKeyView {
                label,
                scheme: "jwks_uri"@,
                params: Map::<Seq<char>, Seq<char>>::empty().insert("id"@, id).insert(
                    "dwk"@,
                    dwk,
                ).insert("kid"@, kid),
            },
        ),
{
    let ps = jwks_params(id, kid, dwk);
    lemma_readable_head(label, "jwks_uri"@);
    lemma_readable_name("id"@);
    lemma_readable_name("dwk"@);
    lemma_readable_name("kid"@);
    assert(readable_params(ps));
    parse_reads_back_semicolon_header(label, "jwks_uri"@, ps);
    reveal_with_fuel(params_map, 4);
    assert(ps.drop_first() =~= seq![("dwk"@, dwk), ("kid"@, kid)]);
    assert(ps.drop_first().drop_first() =~= seq![("kid"@, kid)]);
}

/// Reading back the `jwt` header built for a token gives the label, the scheme
/// `jwt` and the token.
pub proof fn parse_reads_back_jwt(label: Seq<char>, jwt: Seq<char>)
    requires
        !label.contains('='),
        bare(label),
        readable_value(jwt),
    ensures
        signature_key_of(semicolon_header(label, "jwt"@, jwt_params(jwt)))
            == Ok::<SignatureKeyView, Seq<char>>(
            SignatureKeyView {
                label,
                scheme: "jwt"@,
                params: Map::<Seq<char>, Seq<char>>::empty().insert("jwt"@, jwt),
            },
        ),
{
    let ps = jwt_params(jwt);
    lemma_readable_head(label, "jwt"@);
    lemma_readable_name("jwt"@);
    assert(readable_params(ps));
    parse_reads_back_semicolon_header(label, "jwt"@, ps);
    reveal_with_fuel(params_map, 2);
}


/// A header that is read has an `=`; its label is the text before the first
/// `=`, without white space at its ends.
pub proof fn parsed_label_precedes_first_equals(header: Seq<char>)
    ensures
        signature_key_of(header) matches Ok(k) ==> exists|i: int|
            0 <= i < header.len() && header[i] == '=' && !header.take(i).contains('=')
                && k.label == trim(header.take(i)),
{
    lemma_find_char_found(header, '=');
    if let Some(i) = find_char(header, '=') {
        assert(!header.take(i).contains('=')) by {
            if header.take(i).contains('=') {
                let j = choose|j: int| 0 <= j < header.take(i).len() && header.take(i)[j] == '=';
                assert(header[j] == '=');
            }
        }
    }
}

/// A header read in the parenthesized format always names a scheme.
pub proof fn parenthesized_scheme_is_named(label: Seq<char>, inner: Seq<char>)
    ensures
        parenthesized_format(label, inner) matches Ok(k) ==> k.scheme.len() > 0,
{
}

} // verus!
