//! Auth tokens (`aa-auth+jwt`), AAuth spec Section 7.
//!
//! Auth tokens are JWTs that:
//! - have `typ="aa-auth+jwt"` in the header
//! - are signed by an authorization server
//! - contain a `cnf.jwk` claim with the public key for HTTP signature verification
//! - `iss` identifies the authorization server (HTTPS URL, host-only)
//! - `agent` identifies the agent making the request (the `sub` of its agent token)
//! - `act` (REQUIRED, RFC 8693) actor claim: `act.sub` MUST match the `agent` claim
//! - `dwk` (REQUIRED) names the discovery document ("aauth-access.json" or "aauth-person.json")
//! - `jti` (REQUIRED) unique identifier for replay detection
//! - `sub` identifies the user who authorized the agent (optional)
//! - `scope` contains the granted permissions (optional)
//! - at least one of `sub` or `scope` MUST be present

use vstd::prelude::*;

use crate::agent_token::typ_or_empty;
use crate::errors::{check_view, result_view, AAuthError, AAuthErrorView};
use crate::json::string_member;
use crate::jwk::{opt_view, JwkView, JWK};
use crate::jwt::{
    acceptable_issuer, act_sub_of, audience_matches, claim_matches_audience, cnf_jwk_of,
    decode_jwt_claims_unverified, decode_jwt_header, extract_act_sub, extract_cnf_jwk, get_scopes,
    get_string_claim, is_acceptable_jwt_issuer_url, issuer_of, jwt_claims_of, jwt_header_of, kid_of, scopes_of,
    token_key_of, JsonObject, JwtHeaderView,
};
use crate::text::concat_str;

verus! {

/// The `typ` header value required for AAuth auth tokens.
pub const AUTH_TOKEN_TYP: &'static str = "aa-auth+jwt";

/// The `dwk` claim value of auth tokens that name the access discovery document.
pub const AUTH_TOKEN_DWK_ACCESS: &'static str = "aauth-access.json";

/// The `dwk` claim value of auth tokens that name the person discovery document.
pub const AUTH_TOKEN_DWK_PERSON: &'static str = "aauth-person.json";

/// Result of validating an aa-auth+jwt token.
#[derive(Debug, Clone)]
pub struct AuthTokenResult {
    /// The authorization server (iss claim)
    pub issuer: String,
    /// The agent identifier (agent claim): the sub of the agent token
    pub agent_id: String,
    /// The actor claim sub (act.sub), equal to agent_id
    pub act_sub: String,
    /// The discovery document name (dwk claim)
    pub dwk: String,
    /// The unique token identifier (jti claim)
    pub jti: String,
    /// The user identifier (sub claim), optional
    pub user_id: Option<String>,
    /// The granted scopes (scope claim), optional
    pub scopes: Option<Vec<String>>,
    /// The intended audience (aud claim), optional
    pub audience: Option<String>,
    /// The cnf.jwk public key for HTTP signature verification
    pub cnf_jwk: JWK,
    /// All claims from the token
    pub claims: JsonObject,
}

pub struct AuthTokenView {
    pub issuer: Seq<char>,
    pub agent_id: Seq<char>,
    pub act_sub: Seq<char>,
    pub dwk: Seq<char>,
    pub jti: Seq<char>,
    pub user_id: Option<Seq<char>>,
    pub scopes: Option<Seq<Seq<char>>>,
    pub audience: Option<Seq<char>>,
    pub cnf_jwk: JwkView,
    pub claims: Seq<(Seq<char>, Seq<u8>)>,
}

pub open spec fn scopes_view(s: Option<Vec<String>>) -> Option<Seq<Seq<char>>> {
    match s {
        Some(v) => Some(v@.map_values(|w: String| w@)),
        None => None,
    }
}

impl View for AuthTokenResult {
    type V = AuthTokenView;

    open spec fn view(&self) -> AuthTokenView {
        AuthTokenView {
            issuer: self.issuer@,
            agent_id: self.agent_id@,
            act_sub: self.act_sub@,
            dwk: self.dwk@,
            jti: self.jti@,
            user_id: opt_view(self.user_id),
            scopes: scopes_view(self.scopes),
            audience: opt_view(self.audience),
            cnf_jwk: self.cnf_jwk@,
            claims: self.claims@,
        }
    }
}

/// The outcome of validating an auth token: its header, the outcome of
/// checking its signature (and time claims), and its claims, read in order,
/// each with its error.
pub open spec fn auth_token_outcome(
    header: Result<JwtHeaderView, AAuthErrorView>,
    signature_check: Result<(), AAuthErrorView>,
    claims: Result<Seq<(Seq<char>, Seq<u8>)>, AAuthErrorView>,
    expected_audience: Seq<char>,
    expected_agent: Option<Seq<char>>,
    allow_insecure_http_issuer: bool,
) -> Result<AuthTokenView, AAuthErrorView> {
    match header {
        Err(e) => Err(e),
        Ok(h) => if typ_or_empty(h) != "aa-auth+jwt"@ {
            Err(
                AAuthErrorView::JwtValidationError(
                    "expected typ=aa-auth+jwt, got typ="@ + typ_or_empty(h),
                ),
            )
        } else {
            match signature_check {
                Err(e) => Err(e),
                Ok(_) => match claims {
                    Err(e) => Err(e),
                    Ok(c) => auth_claims_outcome(
                        c,
                        expected_audience,
                        expected_agent,
                        allow_insecure_http_issuer,
                    ),
                },
            }
        },
    }
}

/// The checks on the claims of an auth token, up to its actor, in order, each
/// with its error.
pub open spec fn auth_claims_outcome(
    claims: Seq<(Seq<char>, Seq<u8>)>,
    expected_audience: Seq<char>,
    expected_agent: Option<Seq<char>>,
    allow_insecure_http_issuer: bool,
) -> Result<AuthTokenView, AAuthErrorView> {
    match string_member(claims, "iss"@) {
        None => Err(AAuthErrorView::MissingClaim("iss"@)),
        Some(iss) => if !acceptable_issuer(iss, allow_insecure_http_issuer) {
            Err(AAuthErrorView::InvalidIssuerUrl)
        } else {
            match string_member(claims, "agent"@) {
                None => Err(AAuthErrorView::MissingClaim("agent"@)),
                Some(agent) => if expected_agent matches Some(ea) && agent != ea {
                    Err(
                        AAuthErrorView::JwtValidationError(
                            "auth token agent mismatch: expected "@ + expected_agent.unwrap()
                                + ", got "@ + agent,
                        ),
                    )
                } else if !audience_matches(claims, expected_audience) {
                    Err(AAuthErrorView::AudienceMismatch)
                } else {
                    match act_sub_of(claims) {
                        Err(e) => Err(e),
                        Ok(act_sub) => if act_sub != agent {
                            Err(AAuthErrorView::ActClaimMismatch)
                        } else {
                            auth_token_rest(claims, iss, agent, act_sub)
                        },
                    }
                },
            }
        },
    }
}

/// The remaining checks of an auth token, once its issuer, agent and actor are
/// read: `dwk` names one of the two discovery documents of auth tokens,
/// `aauth-access.json` or `aauth-person.json`.
pub open spec fn auth_token_rest(
    claims: Seq<(Seq<char>, Seq<u8>)>,
    iss: Seq<char>,
    agent: Seq<char>,
    act_sub: Seq<char>,
) -> Result<AuthTokenView, AAuthErrorView> {
    match string_member(claims, "dwk"@) {
        None => Err(AAuthErrorView::MissingClaim("dwk"@)),
        Some(dwk) => if dwk != "aauth-access.json"@ && dwk != "aauth-person.json"@ {
            Err(
                AAuthErrorView::JwtValidationError(
                    "auth token dwk must be \"aauth-access.json\" or \"aauth-person.json\", got \""@
                        + dwk + "\""@,
                ),
            )
        } else {
            match string_member(claims, "jti"@) {
                None => Err(AAuthErrorView::MissingClaim("jti"@)),
                Some(jti) => if string_member(claims, "sub"@) is None && scopes_of(claims) is None {
                    Err(
                        AAuthErrorView::JwtValidationError(
                            "auth token must contain at least one of sub or scope"@,
                        ),
                    )
                } else {
                    match cnf_jwk_of(claims) {
                        Err(e) => Err(e),
                        Ok(k) => Ok(
                            AuthTokenView {
                                issuer: iss,
                                agent_id: agent,
                                act_sub,
                                dwk,
                                jti,
                                user_id: string_member(claims, "sub"@),
                                scopes: scopes_of(claims),
                                audience: string_member(claims, "aud"@),
                                cnf_jwk: k,
                                claims,
                            },
                        ),
                    }
                },
            }
        },
    }
}

/// Validates an aa-auth+jwt token per AAuth spec Section 7.
///
/// `signature_check` is the outcome of checking the token's signature with the
/// JWK from the auth server's JWKS, together with its `exp` and `iat` claims:
/// an error there is the result, after the header's `typ` is checked. The
/// claims are read from the token itself.
///
/// The caller is responsible for:
/// 1. Extracting the issuer from the token (using `get_auth_token_issuer`)
/// 2. Fetching the JWKS from the auth server
/// 3. Finding the correct key by `kid` and checking the signature with it
///
/// `expected_audience` is the audience this resource server expects;
/// `expected_agent`, where given, must equal the `agent` claim.
pub fn validate_auth_token(
    jwt: &str,
    signature_check: Result<(), AAuthError>,
    expected_audience: &str,
    expected_agent: Option<&str>,
    allow_insecure_http_issuer: bool,
) -> (r: Result<AuthTokenResult, AAuthError>)
    ensures
        result_view(r) == auth_token_outcome(
            jwt_header_of(jwt@),
            check_view(signature_check),
            jwt_claims_of(jwt@),
            expected_audience@,
            match expected_agent {
                Some(a) => Some(a@),
                None => None,
            },
            allow_insecure_http_issuer,
        ),
{
    let header = match decode_jwt_header(jwt) {
        Ok(h) => h,
        Err(e) => {
            return Err(e);
        },
    };
    let typ = match &header.typ {
        Some(t) => t.clone(),
        None => String::new(),
    };
    if typ != String::from_str(AUTH_TOKEN_TYP) {
        proof {
            reveal_strlit("aa-auth+jwt");
        }
        return Err(
            AAuthError::JwtValidationError(
                concat_str("expected typ=aa-auth+jwt, got typ=", typ.as_str()),
            ),
        );
    }
    if let Err(e) = signature_check {
        return Err(e);
    }
    let claims = match decode_jwt_claims_unverified(jwt) {
        Ok(c) => c,
        Err(e) => {
            return Err(e);
        },
    };
    let issuer = match get_string_claim(&claims, "iss") {
        Some(s) => s,
        None => {
            return Err(AAuthError::MissingClaim(String::from_str("iss")));
        },
    };
    if !is_acceptable_jwt_issuer_url(issuer.as_str(), allow_insecure_http_issuer) {
        return Err(AAuthError::InvalidIssuerUrl);
    }
    let agent_id = match get_string_claim(&claims, "agent") {
        Some(s) => s,
        None => {
            return Err(AAuthError::MissingClaim(String::from_str("agent")));
        },
    };
    if let Some(expected) = expected_agent {
        if agent_id != String::from_str(expected) {
            let mut msg = String::from_str("auth token agent mismatch: expected ");
            msg.append(expected);
            msg.append(", got ");
            msg.append(agent_id.as_str());
            return Err(AAuthError::JwtValidationError(msg));
        }
    }
    if !claim_matches_audience(&claims, expected_audience) {
        return Err(AAuthError::AudienceMismatch);
    }
    let act_sub = match extract_act_sub(&claims) {
        Ok(s) => s,
        Err(e) => {
            return Err(e);
        },
    };
    if act_sub != agent_id {
        return Err(AAuthError::ActClaimMismatch);
    }
    let dwk = match get_string_claim(&claims, "dwk") {
        Some(s) => s,
        None => {
            return Err(AAuthError::MissingClaim(String::from_str("dwk")));
        },
    };
    if dwk != String::from_str(AUTH_TOKEN_DWK_ACCESS) && dwk != String::from_str(
        AUTH_TOKEN_DWK_PERSON,
    ) {
        let mut msg = String::from_str(
            "auth token dwk must be \"aauth-access.json\" or \"aauth-person.json\", got \"",
        );
        msg.append(dwk.as_str());
        msg.append("\"");
        return Err(AAuthError::JwtValidationError(msg));
    }
    let jti = match get_string_claim(&claims, "jti") {
        Some(s) => s,
        None => {
            return Err(AAuthError::MissingClaim(String::from_str("jti")));
        },
    };
    let user_id = get_string_claim(&claims, "sub");
    let scopes = get_scopes(&claims);
    let audience = get_string_claim(&claims, "aud");
    if user_id.is_none() && scopes.is_none() {
        return Err(
            AAuthError::JwtValidationError(
                String::from_str("auth token must contain at least one of sub or scope"),
            ),
        );
    }
    let cnf_jwk = match extract_cnf_jwk(&claims) {
        Ok(k) => k,
        Err(e) => {
            return Err(e);
        },
    };
    Ok(
        AuthTokenResult {
            issuer,
            agent_id,
            act_sub,
            dwk,
            jti,
            user_id,
            scopes,
            audience,
            cnf_jwk,
            claims,
        },
    )
}

/// Gets the issuer (auth server) from an auth token without validation.
///
/// Use this to determine which JWKS to fetch before calling `validate_auth_token`.
/// WARNING: the token has not been validated at this point: do not trust these
/// claims for anything other than JWKS discovery.
pub fn get_auth_token_issuer(jwt: &str) -> (r: Result<String, AAuthError>)
    ensures
        result_view(r) == issuer_of(jwt@),
{
    let claims = match decode_jwt_claims_unverified(jwt) {
        Ok(c) => c,
        Err(e) => {
            return Err(e);
        },
    };
    match get_string_claim(&claims, "iss") {
        Some(iss) => Ok(iss),
        None => Err(AAuthError::JwtValidationError(String::from_str("missing iss claim"))),
    }
}

/// Gets the key ID (kid) from an auth token header.
///
/// Use this to find the correct key in the auth server's JWKS.
pub fn get_auth_token_kid(jwt: &str) -> (r: Result<Option<String>, AAuthError>)
    ensures
        match (r, kid_of(jwt@)) {
            (Ok(k), Ok(v)) => opt_view(k) == v,
            (Err(e), Err(v)) => e@ == v,
            _ => false,
        },
{
    match decode_jwt_header(jwt) {
        Ok(header) => Ok(header.kid),
        Err(e) => Err(e),
    }
}

/// Extracts the public key from an auth token's cnf.jwk claim without full
/// validation.
///
/// This does NOT validate the token signature: call `validate_auth_token`
/// first to ensure the token is trustworthy.
pub fn extract_auth_token_key(jwt: &str) -> (r: Result<JWK, AAuthError>)
    ensures
        result_view(r) == token_key_of(jwt@),
{
    match decode_jwt_claims_unverified(jwt) {
        Ok(claims) => extract_cnf_jwk(&claims),
        Err(e) => Err(e),
    }
}


/// An auth token is accepted only with header `typ` "aa-auth+jwt", a signature
/// check that passed, its own claims, an acceptable issuer URL, the expected
/// audience, the expected agent (where one is given), `act.sub` equal to the
/// agent, a user or scopes, and `dwk` "aauth-access.json" or "aauth-person.json";
/// the issuer, agent, `dwk`, `jti`, user, scopes, audience and key accepted are
/// the token's own `iss`, `agent`, `dwk`, `jti`, `sub`, `scope`, `aud` and
/// `cnf.jwk` claims, so a token without a `jti` claim is never accepted.
pub proof fn accepted_auth_token_properties(
    header: Result<JwtHeaderView, AAuthErrorView>,
    signature_check: Result<(), AAuthErrorView>,
    token_claims: Result<Seq<(Seq<char>, Seq<u8>)>, AAuthErrorView>,
    expected_audience: Seq<char>,
    expected_agent: Option<Seq<char>>,
    allow_insecure_http_issuer: bool,
)
    ensures
        auth_token_outcome(
            header,
            signature_check,
            token_claims,
            expected_audience,
            expected_agent,
            allow_insecure_http_issuer,
        ) matches Ok(v) ==> {
            &&& header matches Ok(h) && h.typ == Some("aa-auth+jwt"@)
            &&& signature_check is Ok
            &&& token_claims matches Ok(claims)
            &&& acceptable_issuer(v.issuer, allow_insecure_http_issuer)
            &&& audience_matches(claims, expected_audience)
            &&& expected_agent matches Some(a) ==> v.agent_id == a
            &&& v.act_sub == v.agent_id
            &&& act_sub_of(claims) == Ok::<Seq<char>, AAuthErrorView>(v.act_sub)
            &&& v.user_id is Some || v.scopes is Some
            &&& v.dwk == "aauth-access.json"@ || v.dwk == "aauth-person.json"@
            &&& string_member(claims, "iss"@) == Some(v.issuer)
            &&& string_member(claims, "agent"@) == Some(v.agent_id)
            &&& string_member(claims, "dwk"@) == Some(v.dwk)
            &&& string_member(claims, "jti"@) == Some(v.jti)
            &&& v.user_id == string_member(claims, "sub"@)
            &&& v.scopes == scopes_of(claims)
            &&& v.audience == string_member(claims, "aud"@)
            &&& cnf_jwk_of(claims) == Ok::<JwkView, AAuthErrorView>(v.cnf_jwk)
            &&& v.claims == claims
        },
{
    reveal_strlit("aa-auth+jwt");
    if let Ok(h) = header {
        if h.typ is None {
            assert(typ_or_empty(h).len() == 0);
        }
    }
}

} // verus!
