use aauth::{
    claim_matches_audience, decode_jwt_header, extract_act_sub, extract_agent_token_key,
    extract_auth_token_key, extract_cnf_jwk, get_agent_token_issuer, get_agent_token_kid,
    get_auth_token_issuer, get_auth_token_kid, get_scopes, get_string_claim,
    is_acceptable_jwt_issuer_url, parse_json_object, validate_agent_token, validate_auth_token,
    AAuthError, JsonObject,
};
use base64::Engine;

const CNF: &str = r#"{"jwk":{"kty":"OKP","crv":"Ed25519","x":"JrQLj5P_89iXES9-vFgrIy29clF9CC_oPPsw3c5D0bs"}}"#;

fn agent_claims_json() -> String {
    format!(
        r#"{{"iss":"https://agent.example.com","sub":"aauth:local@agent.example.com","dwk":"aauth-agent.json","jti":"unique-token-id-123","cnf":{}}}"#,
        CNF
    )
}

fn auth_claims_json() -> String {
    format!(
        r#"{{"iss":"https://auth.example.com","agent":"aauth:local@agent.example.com","sub":"user-456","scope":"read write","aud":"https://resource.example.com","dwk":"aauth-access.json","jti":"unique-auth-token-456","act":{{"sub":"aauth:local@agent.example.com"}},"cnf":{}}}"#,
        CNF
    )
}

fn claims(json: &str) -> JsonObject {
    parse_json_object(json.as_bytes()).unwrap()
}

fn b64(s: &str) -> String {
    base64::engine::general_purpose::URL_SAFE_NO_PAD.encode(s.as_bytes())
}

fn jwt(header: &str, payload: &str) -> String {
    format!("{}.{}.c2ln", b64(header), b64(payload))
}

#[test]
fn test_extract_agent_token_key_from_claims() {
    let claims = claims(&agent_claims_json());
    let jwk = extract_cnf_jwk(&claims).unwrap();
    assert_eq!(jwk.kty, "OKP");
    assert_eq!(jwk.crv, Some("Ed25519".to_string()));
}

#[test]
fn test_extract_auth_token_key_from_claims() {
    let claims = claims(&auth_claims_json());
    let jwk = extract_cnf_jwk(&claims).unwrap();
    assert_eq!(jwk.kty, "OKP");
}

#[test]
fn test_get_scopes_from_claims() {
    let claims = claims(&auth_claims_json());
    let scopes = get_scopes(&claims).unwrap();
    assert_eq!(scopes, vec!["read", "write"]);
}

#[test]
fn test_extract_act_sub() {
    let claims = claims(&auth_claims_json());
    let act_sub = extract_act_sub(&claims).unwrap();
    assert_eq!(act_sub, "aauth:local@agent.example.com");
}

#[test]
fn string_claim_only_for_strings() {
    let c = claims(r#"{"a":"x","n":3,"o":{"a":"y"}}"#);
    assert_eq!(get_string_claim(&c, "a"), Some("x".to_string()));
    assert_eq!(get_string_claim(&c, "n"), None);
    assert_eq!(get_string_claim(&c, "o"), None);
    assert_eq!(get_string_claim(&c, "missing"), None);
}

#[test]
fn scopes_split_on_any_white_space() {
    let c = claims(r#"{"scope":"  a\tb\n  c "}"#);
    assert_eq!(get_scopes(&c).unwrap(), vec!["a", "b", "c"]);
    let c = claims(r#"{"scope":["a"]}"#);
    assert_eq!(get_scopes(&c), None);
}

#[test]
fn cnf_errors() {
    let c = claims(r#"{"iss":"x"}"#);
    assert!(matches!(extract_cnf_jwk(&c), Err(AAuthError::MissingClaim(m)) if m == "cnf"));
    let c = claims(r#"{"cnf":{"other":1}}"#);
    assert!(matches!(extract_cnf_jwk(&c), Err(AAuthError::MissingClaim(m)) if m == "cnf.jwk"));
    let c = claims(r#"{"cnf":{"jwk":"text"}}"#);
    assert!(matches!(extract_cnf_jwk(&c), Err(AAuthError::InvalidKey(_))));
    let c = claims(r#"{"cnf":{"jwk":{"crv":"Ed25519"}}}"#);
    assert!(matches!(extract_cnf_jwk(&c), Err(AAuthError::InvalidKey(m)) if m == "missing jwk member: kty"));
    let c = claims(r#"{"cnf":{"jwk":{"kty":"OKP","x":5}}}"#);
    assert!(matches!(extract_cnf_jwk(&c), Err(AAuthError::InvalidKey(m)) if m == "invalid jwk member: x"));
}

#[test]
fn jwk_keeps_extra_members_and_null_fields() {
    let c = claims(r#"{"cnf":{"jwk":{"kty":"RSA","n":"nn","e":"AQAB","use":"sig","kid":null}}}"#);
    let jwk = extract_cnf_jwk(&c).unwrap();
    assert_eq!(jwk.kty, "RSA");
    assert_eq!(jwk.n, Some("nn".to_string()));
    assert_eq!(jwk.e, Some("AQAB".to_string()));
    assert_eq!(jwk.kid, None);
    assert_eq!(jwk.extra.len(), 1);
    assert_eq!(jwk.extra[0].0, "use");
    assert_eq!(jwk.extra[0].1, b"\"sig\"".to_vec());
}

#[test]
fn act_sub_errors() {
    let c = claims(r#"{"a":1}"#);
    assert!(matches!(extract_act_sub(&c), Err(AAuthError::MissingClaim(m)) if m == "act"));
    let c = claims(r#"{"act":"x"}"#);
    assert!(matches!(extract_act_sub(&c), Err(AAuthError::JwtValidationError(_))));
    let c = claims(r#"{"act":{"iss":"x"}}"#);
    assert!(matches!(extract_act_sub(&c), Err(AAuthError::MissingClaim(m)) if m == "act.sub"));
}

#[test]
fn audience_string_or_array() {
    let c = claims(r#"{"aud":"https://r"}"#);
    assert!(claim_matches_audience(&c, "https://r"));
    assert!(!claim_matches_audience(&c, "https://s"));
    let c = claims(r#"{"aud":[1,"https://s","https://r"]}"#);
    assert!(claim_matches_audience(&c, "https://r"));
    assert!(!claim_matches_audience(&c, "https://t"));
    let c = claims(r#"{"aud":5}"#);
    assert!(!claim_matches_audience(&c, "5"));
    let c = claims(r#"{}"#);
    assert!(!claim_matches_audience(&c, "x"));
}

#[test]
fn issuer_url_rule() {
    assert!(is_acceptable_jwt_issuer_url("https://agent.example", false));
    assert!(is_acceptable_jwt_issuer_url("https://agent.example/", false));
    assert!(!is_acceptable_jwt_issuer_url("http://agent.example", false));
    assert!(is_acceptable_jwt_issuer_url("http://agent.example", true));
    assert!(!is_acceptable_jwt_issuer_url("https://agent.example:8443", false));
    assert!(!is_acceptable_jwt_issuer_url("https://agent.example/path", false));
    assert!(!is_acceptable_jwt_issuer_url("https://agent.example?q=1", false));
    assert!(!is_acceptable_jwt_issuer_url("https://agent.example#f", false));
    assert!(!is_acceptable_jwt_issuer_url("https://u@agent.example", false));
    assert!(!is_acceptable_jwt_issuer_url("not a url", false));
}

#[test]
fn unverified_reads_of_a_token() {
    let token = jwt(r#"{"alg":"EdDSA","typ":"aa-agent+jwt","kid":"key-1"}"#, &agent_claims_json());
    assert_eq!(get_agent_token_issuer(&token).unwrap(), "https://agent.example.com");
    assert_eq!(get_agent_token_kid(&token).unwrap(), Some("key-1".to_string()));
    assert_eq!(extract_agent_token_key(&token).unwrap().kty, "OKP");
    let header = decode_jwt_header(&token).unwrap();
    assert_eq!(header.alg, Some("EdDSA".to_string()));
    assert_eq!(header.typ, Some("aa-agent+jwt".to_string()));

    let token = jwt(r#"{"alg":"EdDSA","typ":"aa-auth+jwt"}"#, &auth_claims_json());
    assert_eq!(get_auth_token_issuer(&token).unwrap(), "https://auth.example.com");
    assert_eq!(get_auth_token_kid(&token).unwrap(), None);
    assert_eq!(extract_auth_token_key(&token).unwrap().crv, Some("Ed25519".to_string()));
}

#[test]
fn malformed_tokens() {
    assert!(matches!(get_agent_token_issuer("abc"), Err(AAuthError::JwtValidationError(m)) if m == "invalid JWT format"));
    assert!(matches!(get_agent_token_kid("a.b.c.d"), Err(AAuthError::JwtValidationError(_))));
    assert!(matches!(get_agent_token_kid("!!.e30.c2ln"), Err(AAuthError::Base64Error(_))));
    let not_json = format!("{}.{}.c2ln", b64("{"), b64("{}"));
    assert!(matches!(get_auth_token_kid(&not_json), Err(AAuthError::JsonError(_))));
    let token = jwt(r#"{"alg":"EdDSA"}"#, r#"{"sub":"x"}"#);
    assert!(matches!(get_auth_token_issuer(&token), Err(AAuthError::JwtValidationError(m)) if m == "missing iss claim"));
    let token = jwt(r#"[1]"#, r#"{}"#);
    assert!(matches!(get_agent_token_kid(&token), Err(AAuthError::JwtValidationError(_))));
}

#[test]
fn agent_token_validation() {
    let header = r#"{"alg":"EdDSA","typ":"aa-agent+jwt"}"#;
    let token = jwt(header, &agent_claims_json());
    let r = validate_agent_token(&token, Ok(()), None, false).unwrap();
    assert_eq!(r.agent_id, "https://agent.example.com");
    assert_eq!(r.subject, "aauth:local@agent.example.com");
    assert_eq!(r.dwk, "aauth-agent.json");
    assert_eq!(r.jti, "unique-token-id-123");
    assert_eq!(r.cnf_jwk.kty, "OKP");
    assert_eq!(get_string_claim(&r.claims, "jti"), Some("unique-token-id-123".to_string()));

    match validate_agent_token(&token, Err(AAuthError::JwtValidationError("token expired".to_string())), None, false) {
        Err(AAuthError::JwtValidationError(m)) => assert_eq!(m, "token expired"),
        other => panic!("unexpected: {:?}", other),
    }

    let wrong_typ = jwt(r#"{"alg":"EdDSA","typ":"JWT"}"#, &agent_claims_json());
    match validate_agent_token(&wrong_typ, Err(AAuthError::InvalidSignature("bad".to_string())), None, false) {
        Err(AAuthError::JwtValidationError(m)) => {
            assert_eq!(m, "expected typ=aa-agent+jwt, got typ=JWT")
        }
        other => panic!("unexpected: {:?}", other),
    }

    let with_aud = jwt(header, r#"{"iss":"https://agent.example.com","sub":"s","dwk":"aauth-agent.json","jti":"j","aud":"https://a"}"#);
    assert!(matches!(
        validate_agent_token(&with_aud, Ok(()), Some("https://b"), false),
        Err(AAuthError::AudienceMismatch)
    ));
    assert!(matches!(
        validate_agent_token(&with_aud, Ok(()), Some("https://a"), false),
        Err(AAuthError::MissingClaim(m)) if m == "cnf"
    ));

    let http_iss = jwt(header, r#"{"iss":"http://agent.example.com","sub":"s","dwk":"aauth-agent.json","jti":"j"}"#);
    assert!(matches!(
        validate_agent_token(&http_iss, Ok(()), None, false),
        Err(AAuthError::InvalidIssuerUrl)
    ));

    let bad_dwk = jwt(header, r#"{"iss":"https://agent.example.com","sub":"s","dwk":"other.json","jti":"j"}"#);
    match validate_agent_token(&bad_dwk, Ok(()), None, false) {
        Err(AAuthError::JwtValidationError(m)) => {
            assert_eq!(m, "agent token dwk must be \"aauth-agent.json\", got \"other.json\"")
        }
        other => panic!("unexpected: {:?}", other),
    }

    let no_sub = jwt(header, r#"{"iss":"https://agent.example.com","dwk":"aauth-agent.json","jti":"j"}"#);
    assert!(matches!(
        validate_agent_token(&no_sub, Ok(()), None, false),
        Err(AAuthError::MissingClaim(m)) if m == "sub"
    ));

    let bad_payload = format!("{}.{}.c2ln", b64(header), b64("[1,2]"));
    assert!(matches!(
        validate_agent_token(&bad_payload, Ok(()), None, false),
        Err(AAuthError::JwtValidationError(m)) if m == "JWT claims are not a JSON object"
    ));
}

fn auth_token(payload: &str) -> String {
    jwt(r#"{"alg":"EdDSA","typ":"aa-auth+jwt"}"#, payload)
}

#[test]
fn auth_token_validation() {
    let token = auth_token(&auth_claims_json());
    let r = validate_auth_token(
        &token,
        Ok(()),
        "https://resource.example.com",
        Some("aauth:local@agent.example.com"),
        false,
    )
    .unwrap();
    assert_eq!(r.issuer, "https://auth.example.com");
    assert_eq!(r.agent_id, "aauth:local@agent.example.com");
    assert_eq!(r.act_sub, "aauth:local@agent.example.com");
    assert_eq!(r.dwk, "aauth-access.json");
    assert_eq!(r.jti, "unique-auth-token-456");
    assert_eq!(r.user_id, Some("user-456".to_string()));
    assert_eq!(r.scopes, Some(vec!["read".to_string(), "write".to_string()]));
    assert_eq!(r.audience, Some("https://resource.example.com".to_string()));

    assert!(matches!(
        validate_auth_token(&token, Err(AAuthError::InvalidSignature("bad".to_string())), "https://resource.example.com", None, false),
        Err(AAuthError::InvalidSignature(m)) if m == "bad"
    ));

    match validate_auth_token(&token, Ok(()), "https://resource.example.com", Some("other"), false) {
        Err(AAuthError::JwtValidationError(m)) => assert_eq!(
            m,
            "auth token agent mismatch: expected other, got aauth:local@agent.example.com"
        ),
        other => panic!("unexpected: {:?}", other),
    }
    assert!(matches!(
        validate_auth_token(&token, Ok(()), "https://elsewhere", None, false),
        Err(AAuthError::AudienceMismatch)
    ));

    let act_mismatch = auth_token(r#"{"iss":"https://auth.example.com","agent":"a","aud":"r","act":{"sub":"b"},"dwk":"aauth-access.json","jti":"j","sub":"u"}"#);
    assert!(matches!(
        validate_auth_token(&act_mismatch, Ok(()), "r", None, false),
        Err(AAuthError::ActClaimMismatch)
    ));

    let neither = auth_token(r#"{"iss":"https://auth.example.com","agent":"a","aud":"r","act":{"sub":"a"},"dwk":"aauth-person.json","jti":"j"}"#);
    match validate_auth_token(&neither, Ok(()), "r", None, false) {
        Err(AAuthError::JwtValidationError(m)) => {
            assert_eq!(m, "auth token must contain at least one of sub or scope")
        }
        other => panic!("unexpected: {:?}", other),
    }

    let other_dwk = auth_token(r#"{"iss":"https://auth.example.com","agent":"a","aud":"r","act":{"sub":"a"},"dwk":"other.json","jti":"j","sub":"u"}"#);
    match validate_auth_token(&other_dwk, Ok(()), "r", None, false) {
        Err(AAuthError::JwtValidationError(m)) => assert_eq!(
            m,
            "auth token dwk must be \"aauth-access.json\" or \"aauth-person.json\", got \"other.json\""
        ),
        other => panic!("unexpected: {:?}", other),
    }

    let person = format!(
        r#"{{"iss":"https://auth.example.com","agent":"a","aud":["r"],"act":{{"sub":"a"}},"dwk":"aauth-person.json","jti":"j","scope":"read","cnf":{}}}"#,
        CNF
    );
    let r = validate_auth_token(&auth_token(&person), Ok(()), "r", Some("a"), false).unwrap();
    assert_eq!(r.dwk, "aauth-person.json");
    assert_eq!(r.user_id, None);
    assert_eq!(r.audience, None);

    let agent_typ = jwt(r#"{"typ":"aa-agent+jwt"}"#, &auth_claims_json());
    assert!(matches!(
        validate_auth_token(&agent_typ, Ok(()), "https://resource.example.com", None, false),
        Err(AAuthError::JwtValidationError(m)) if m == "expected typ=aa-auth+jwt, got typ=aa-agent+jwt"
    ));
}
