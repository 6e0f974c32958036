//! Agent tokens (`aa-agent+jwt`), AAuth spec Section 5.
//!
//! Agent tokens are JWTs that:
//! - have `typ="aa-agent+jwt"` in the header
//! - are signed by the agent server (issuer)
//! - contain a `cnf.jwk` claim with the public key for HTTP signature verification
//! - `iss` identifies the agent server (HTTPS URL, host-only)
//! - `sub` (REQUIRED) is the stable agent identifier across key rotations
//! - `dwk` (REQUIRED) must be "aauth-agent.json", the discovery document
//! - `jti` (REQUIRED) is a unique identifier for replay detection

use vstd::prelude::*;

use crate::errors::{check_view, result_view, AAuthError, AAuthErrorView};
use crate::json::{find_member, member, string_member};
use crate::jwk::{opt_view, JwkView, JWK};
use crate::jwt::{
    acceptable_issuer, audience_matches, claim_matches_audience, cnf_jwk_of,
    decode_jwt_claims_unverified, decode_jwt_header, extract_cnf_jwk, get_string_claim,
    is_acceptable_jwt_issuer_url, issuer_of, jwt_claims_of, jwt_header_of, kid_of, token_key_of, JsonObject,
    JwtHeaderView,
};
use crate::text::concat_str;

verus! {

/// The `typ` header value required for AAuth agent tokens.
pub const AGENT_TOKEN_TYP: &'static str = "aa-agent+jwt";

/// The required `dwk` claim value for agent tokens.
pub const AGENT_TOKEN_DWK: &'static str = "aauth-agent.json";

/// Result of validating an aa-agent+jwt token.
#[derive(Debug, Clone)]
pub struct AgentTokenResult {
    /// The agent server URL (iss claim)
    pub agent_id: String,
    /// The stable agent identifier (sub claim)
    pub subject: String,
    /// The discovery document name (dwk claim), always "aauth-agent.json"
    pub dwk: String,
    /// The unique token identifier (jti claim)
    pub jti: String,
    /// The cnf.jwk public key for HTTP signature verification
    pub cnf_jwk: JWK,
    /// All claims from the token
    pub claims: JsonObject,
}

pub struct AgentTokenView {
    pub agent_id: Seq<char>,
    pub subject: Seq<char>,
    pub dwk: Seq<char>,
    pub jti: Seq<char>,
    pub cnf_jwk: JwkView,
    pub claims: Seq<(Seq<char>, Seq<u8>)>,
}

impl View for AgentTokenResult {
    type V = AgentTokenView;

    open spec fn view(&self) -> AgentTokenView {
        AgentTokenView {
            agent_id: self.agent_id@,
            subject: self.subject@,
            dwk: self.dwk@,
            jti: self.jti@,
            cnf_jwk: self.cnf_jwk@,
            claims: self.claims@,
        }
    }
}

/// The `typ` of a header, or the empty text where it has none.
pub open spec fn typ_or_empty(h: JwtHeaderView) -> Seq<char> {
    match h.typ {
        Some(t) => t,
        None => seq![],
    }
}

/// The outcome of validating an agent token: its header, the outcome of
/// checking its signature (and time claims), and its claims, read in order,
/// each with its error.
pub open spec fn agent_token_outcome(
    header: Result<JwtHeaderView, AAuthErrorView>,
    signature_check: Result<(), AAuthErrorView>,
    claims: Result<Seq<(Seq<char>, Seq<u8>)>, AAuthErrorView>,
    expected_audience: Option<Seq<char>>,
    allow_insecure_http_issuer: bool,
) -> Result<AgentTokenView, AAuthErrorView> {
    match header {
        Err(e) => Err(e),
        Ok(h) => if typ_or_empty(h) != "aa-agent+jwt"@ {
            Err(
                AAuthErrorView::JwtValidationError(
                    "expected typ=aa-agent+jwt, got typ="@ + typ_or_empty(h),
                ),
            )
        } else {
            match signature_check {
                Err(e) => Err(e),
                Ok(_) => match claims {
                    Err(e) => Err(e),
                    Ok(c) => agent_claims_outcome(c, expected_audience, allow_insecure_http_issuer),
                },
            }
        },
    }
}

/// The checks on the claims of an agent token, in order, each with its error.
pub open spec fn agent_claims_outcome(
    claims: Seq<(Seq<char>, Seq<u8>)>,
    expected_audience: Option<Seq<char>>,
    allow_insecure_http_issuer: bool,
) -> Result<AgentTokenView, AAuthErrorView> {
    if expected_audience matches Some(aud) && member(claims, "aud"@) is Some
        && !audience_matches(claims, aud) {
        Err(AAuthErrorView::AudienceMismatch)
    } else {
        match string_member(claims, "iss"@) {
            None => Err(AAuthErrorView::MissingClaim("iss"@)),
            Some(iss) => if !acceptable_issuer(iss, allow_insecure_http_issuer) {
                Err(AAuthErrorView::InvalidIssuerUrl)
            } else {
                match string_member(claims, "sub"@) {
                    None => Err(AAuthErrorView::MissingClaim("sub"@)),
                    Some(sub) => match string_member(claims, "dwk"@) {
                        None => Err(AAuthErrorView::MissingClaim("dwk"@)),
                        Some(dwk) => if dwk != "aauth-agent.json"@ {
                            Err(
                                AAuthErrorView::JwtValidationError(
                                    "agent token dwk must be \"aauth-agent.json\", got \""@
                                        + dwk + "\""@,
                                ),
                            )
                        } else {
                            match string_member(claims, "jti"@) {
                                None => Err(AAuthErrorView::MissingClaim("jti"@)),
                                Some(jti) => match cnf_jwk_of(claims) {
                                    Err(e) => Err(e),
                                    Ok(k) => Ok(
                                        AgentTokenView {
                                            agent_id: iss,
                                            subject: sub,
                                            dwk,
                                            jti,
                                            cnf_jwk: k,
                                            claims,
                                        },
                                    ),
                                },
                            }
                        },
                    },
                }
            },
        }
    }
}

/// Validates an aa-agent+jwt token per AAuth spec Section 5.
///
/// `signature_check` is the outcome of checking the token's signature with the
/// JWK from the agent's JWKS, together with its `exp` and `iat` claims: an
/// error there is the result, after the header's `typ` is checked. The claims
/// are read from the token itself.
///
/// The caller is responsible for:
/// 1. Extracting the issuer from the token (using `get_agent_token_issuer`)
/// 2. Fetching the JWKS from `{iss}/.well-known/aauth-agent.json`
/// 3. Finding the correct key by `kid` and checking the signature with it
pub fn validate_agent_token(
    jwt: &str,
    signature_check: Result<(), AAuthError>,
    expected_audience: Option<&str>,
    allow_insecure_http_issuer: bool,
) -> (r: Result<AgentTokenResult, AAuthError>)
    ensures
        result_view(r) == agent_token_outcome(
            jwt_header_of(jwt@),
            check_view(signature_check),
            jwt_claims_of(jwt@),
            match expected_audience {
                Some(a) => Some(a@),
                None => None,
            },
            allow_insecure_http_issuer,
        ),
{
    let header = match decode_jwt_header(jwt) {
        Ok(h) => h,
        Err(e) => {
            return Err(e);
        },
    };
    let typ = match &header.typ {
        Some(t) => t.clone(),
        None => String::new(),
    };
    if typ != String::from_str(AGENT_TOKEN_TYP) {
        proof {
            reveal_strlit("aa-agent+jwt");
        }
        return Err(
            AAuthError::JwtValidationError(
                concat_str("expected typ=aa-agent+jwt, got typ=", typ.as_str()),
            ),
        );
    }
    if let Err(e) = signature_check {
        return Err(e);
    }
    let claims = match decode_jwt_claims_unverified(jwt) {
        Ok(c) => c,
        Err(e) => {
            return Err(e);
        },
    };
    if let Some(expected_aud) = expected_audience {
        if find_member(&claims.members, "aud").is_some() {
            if !claim_matches_audience(&claims, expected_aud) {
                return Err(AAuthError::AudienceMismatch);
            }
        }
    }
    let agent_id = match get_string_claim(&claims, "iss") {
        Some(s) => s,
        None => {
            return Err(AAuthError::MissingClaim(String::from_str("iss")));
        },
    };
    if !is_acceptable_jwt_issuer_url(agent_id.as_str(), allow_insecure_http_issuer) {
        return Err(AAuthError::InvalidIssuerUrl);
    }
    let subject = match get_string_claim(&claims, "sub") {
        Some(s) => s,
        None => {
            return Err(AAuthError::MissingClaim(String::from_str("sub")));
        },
    };
    let dwk = match get_string_claim(&claims, "dwk") {
        Some(s) => s,
        None => {
            return Err(AAuthError::MissingClaim(String::from_str("dwk")));
        },
    };
    if dwk != String::from_str(AGENT_TOKEN_DWK) {
        let mut msg = String::from_str("agent token dwk must be \"aauth-agent.json\", got \"");
        msg.append(dwk.as_str());
        msg.append("\"");
        return Err(AAuthError::JwtValidationError(msg));
    }
    let jti = match get_string_claim(&claims, "jti") {
        Some(s) => s,
        None => {
            return Err(AAuthError::MissingClaim(String::from_str("jti")));
        },
    };
    let cnf_jwk = match extract_cnf_jwk(&claims) {
        Ok(k) => k,
        Err(e) => {
            return Err(e);
        },
    };
    Ok(AgentTokenResult { agent_id, subject, dwk, jti, cnf_jwk, claims })
}

/// Gets the issuer (agent server) from an agent token without validation.
///
/// Use this to determine which JWKS to fetch before calling `validate_agent_token`.
/// WARNING: the token has not been validated at this point: do not trust these
/// claims for anything other than JWKS discovery.
pub fn get_agent_token_issuer(jwt: &str) -> (r: Result<String, AAuthError>)
    ensures
        result_view(r) == issuer_of(jwt@),
{
    let claims = match decode_jwt_claims_unverified(jwt) {
        Ok(c) => c,
        Err(e) => {
            return Err(e);
        },
    };
    match get_string_claim(&claims, "iss") {
        Some(iss) => Ok(iss),
        None => Err(AAuthError::JwtValidationError(String::from_str("missing iss claim"))),
    }
}

/// Gets the key ID (kid) from an agent token header.
///
/// Use this to find the correct key in the agent's JWKS.
pub fn get_agent_token_kid(jwt: &str) -> (r: Result<Option<String>, AAuthError>)
    ensures
        match (r, kid_of(jwt@)) {
            (Ok(k), Ok(v)) => opt_view(k) == v,
            (Err(e), Err(v)) => e@ == v,
            _ => false,
        },
{
    match decode_jwt_header(jwt) {
        Ok(header) => Ok(header.kid),
        Err(e) => Err(e),
    }
}

/// Extracts the public key from an agent token's cnf.jwk claim without full
/// validation.
///
/// This does NOT validate the token signature: call `validate_agent_token`
/// first to ensure the token is trustworthy.
pub fn extract_agent_token_key(jwt: &str) -> (r: Result<JWK, AAuthError>)
    ensures
        result_view(r) == token_key_of(jwt@),
{
    match decode_jwt_claims_unverified(jwt) {
        Ok(claims) => extract_cnf_jwk(&claims),
        Err(e) => Err(e),
    }
}


/// An agent token is accepted only with header `typ` "aa-agent+jwt", a
/// signature check that passed, its own claims, an
/// acceptable issuer URL as its agent id, the `dwk` "aauth-agent.json", and,
/// where an audience is expected and the token names one, that audience; the
/// agent id, subject, `dwk`, `jti` and key accepted are the token's own `iss`,
/// `sub`, `dwk`, `jti` and `cnf.jwk` claims.
pub proof fn accepted_agent_token_properties(
    header: Result<JwtHeaderView, AAuthErrorView>,
    signature_check: Result<(), AAuthErrorView>,
    token_claims: Result<Seq<(Seq<char>, Seq<u8>)>, AAuthErrorView>,
    expected_audience: Option<Seq<char>>,
    allow_insecure_http_issuer: bool,
)
    ensures
        agent_token_outcome(
            header,
            signature_check,
            token_claims,
            expected_audience,
            allow_insecure_http_issuer,
        ) matches Ok(v) ==> {
            &&& header matches Ok(h) && h.typ == Some("aa-agent+jwt"@)
            &&& signature_check is Ok
            &&& token_claims matches Ok(claims)
            &&& acceptable_issuer(v.agent_id, allow_insecure_http_issuer)
            &&& string_member(claims, "iss"@) == Some(v.agent_id)
            &&& string_member(claims, "sub"@) == Some(v.subject)
            &&& string_member(claims, "dwk"@) == Some(v.dwk)
            &&& string_member(claims, "jti"@) == Some(v.jti)
            &&& cnf_jwk_of(claims) == Ok::<JwkView, AAuthErrorView>(v.cnf_jwk)
            &&& v.dwk == "aauth-agent.json"@
            &&& expected_audience matches Some(aud) ==> (member(claims, "aud"@) is Some
                ==> audience_matches(claims, aud))
            &&& v.claims == claims
        },
{
    reveal_strlit("aa-agent+jwt");
    if let Ok(h) = header {
        if h.typ is None {
            assert(typ_or_empty(h).len() == 0);
        }
    }
}

/// The audience of an agent token is checked only where its claims name one:
/// with no `aud` claim, the outcome is the same whatever audience is expected,
/// and no audience expected at all gives that outcome too.
pub proof fn agent_token_without_audience_ignores_expected(
    header: Result<JwtHeaderView, AAuthErrorView>,
    signature_check: Result<(), AAuthErrorView>,
    token_claims: Result<Seq<(Seq<char>, Seq<u8>)>, AAuthErrorView>,
    expected_audience: Option<Seq<char>>,
    allow_insecure_http_issuer: bool,
)
    requires
        token_claims matches Ok(claims) ==> member(claims, "aud"@) is None,
    ensures
        agent_token_outcome(
            header,
            signature_check,
            token_claims,
            expected_audience,
            allow_insecure_http_issuer,
        ) == agent_token_outcome(
            header,
            signature_check,
            token_claims,
            None,
            allow_insecure_http_issuer,
        ),
{
}

/// The claims of an agent token are refused for their audience exactly where
/// an audience is expected, the claims name one, and it is not the expected
/// one.
pub proof fn agent_claims_audience_mismatch_exactly(
    claims: Seq<(Seq<char>, Seq<u8>)>,
    expected_audience: Option<Seq<char>>,
    allow_insecure_http_issuer: bool,
)
    ensures
        agent_claims_outcome(claims, expected_audience, allow_insecure_http_issuer)
            == Err::<AgentTokenView, AAuthErrorView>(AAuthErrorView::AudienceMismatch) <==> (
        expected_audience matches Some(aud) && member(claims, "aud"@) is Some
            && !audience_matches(claims, aud)),
{
}

/// Expecting an audience changes what the claims of an agent token give only
/// where they name an audience that is not the expected one: then they are
/// refused for it; otherwise the outcome is the one with no audience expected.
pub proof fn agent_claims_expected_audience_effect(
    claims: Seq<(Seq<char>, Seq<u8>)>,
    expected: Seq<char>,
    allow_insecure_http_issuer: bool,
)
    ensures
        agent_claims_outcome(claims, Some(expected), allow_insecure_http_issuer) == if member(
            claims,
            "aud"@,
        ) is Some && !audience_matches(claims, expected) {
            Err::<AgentTokenView, AAuthErrorView>(AAuthErrorView::AudienceMismatch)
        } else {
            agent_claims_outcome(claims, None, allow_insecure_http_issuer)
        },
{
}

} // verus!
