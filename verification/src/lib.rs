//! AAuth (agent-to-agent authentication) header and token handling, verified
//! with Verus: the Signature-Key header (parsing and building), reading and
//! validating agent and auth tokens (JWTs), and the AgentCore runtime target.

pub mod agent_token;
pub mod agentcore;
pub mod auth_token;
pub mod errors;
pub mod json;
pub mod jwk;
pub mod jwt;
pub mod outside;
pub mod params;
pub mod signature_key;
pub mod text;

pub use agent_token::{
    extract_agent_token_key, get_agent_token_issuer, get_agent_token_kid, validate_agent_token,
    AgentTokenResult, AGENT_TOKEN_DWK, AGENT_TOKEN_TYP,
};
pub use agentcore::{AgentCoreConfig, AgentCoreError};
pub use auth_token::{
    extract_auth_token_key, get_auth_token_issuer, get_auth_token_kid, validate_auth_token,
    AuthTokenResult, AUTH_TOKEN_DWK_ACCESS, AUTH_TOKEN_DWK_PERSON, AUTH_TOKEN_TYP,
};
pub use errors::{AAuthError, HttpSigError};
pub use jwk::JWK;
pub use jwt::{
    claim_matches_audience, decode_jwt_claims_unverified, decode_jwt_header, extract_act_sub,
    extract_cnf_jwk, get_scopes, get_string_claim, is_acceptable_jwt_issuer_url,
    parse_json_object, JsonObject, JwtHeader,
};
pub use params::Params;
pub use signature_key::{
    build_signature_key_hwk, build_signature_key_jwks, build_signature_key_jwt,
    parse_signature_key, SignatureKey,
};
