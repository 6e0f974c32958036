use aauth::{AAuthError, AgentCoreConfig, AgentCoreError, HttpSigError};

const ARN: &str = "arn:aws:bedrock-agentcore:us-east-1:123456789012:runtime/abc";

#[test]
fn config_from_arn() {
    let c = AgentCoreConfig::new(ARN.to_string(), None).unwrap();
    assert_eq!(c.region, "us-east-1");
    assert_eq!(c.account_id, "123456789012");
    assert_eq!(c.agent_runtime_arn, ARN);
    assert_eq!(c.qualifier, None);
}

#[test]
fn config_refusals() {
    match AgentCoreConfig::new("arn:aws:bedrock-agentcore:us-east-1".to_string(), None) {
        Err(e @ AgentCoreError::InvalidArn(_)) => assert_eq!(
            e.message(),
            "invalid AgentCore ARN: arn:aws:bedrock-agentcore:us-east-1"
        ),
        other => panic!("unexpected: {:?}", other),
    }
    match AgentCoreConfig::new("arn:aws:s3:us-east-1:1:bucket".to_string(), None) {
        Err(e @ AgentCoreError::UnexpectedService(_)) => assert_eq!(
            e.message(),
            "invalid AgentCore ARN (expected service bedrock-agentcore): arn:aws:s3:us-east-1:1:bucket"
        ),
        other => panic!("unexpected: {:?}", other),
    }
}

#[test]
fn four_colons_are_enough() {
    let c = AgentCoreConfig::new("a:b:bedrock-agentcore:r:acct".to_string(), None).unwrap();
    assert_eq!(c.region, "r");
    assert_eq!(c.account_id, "acct");
}

#[test]
fn host_and_path() {
    let c = AgentCoreConfig::new(ARN.to_string(), Some("DEFAULT".to_string())).unwrap();
    assert_eq!(c.get_host(), "bedrock-agentcore.us-east-1.amazonaws.com");
    assert_eq!(
        c.get_path(),
        "/runtimes/arn%3Aaws%3Abedrock%2Dagentcore%3Aus%2Deast%2D1%3A123456789012%3Aruntime%2Fabc/invocations?qualifier=DEFAULT"
    );
    let c = AgentCoreConfig::new(ARN.to_string(), None).unwrap();
    assert_eq!(
        c.get_path(),
        "/runtimes/arn%3Aaws%3Abedrock%2Dagentcore%3Aus%2Deast%2D1%3A123456789012%3Aruntime%2Fabc/invocations"
    );
}

#[test]
fn path_encodes_utf8_bytes() {
    let c = AgentCoreConfig::new("a:b:bedrock-agentcore:r:acct:é".to_string(), None).unwrap();
    assert_eq!(c.get_path(), "/runtimes/a%3Ab%3Abedrock%2Dagentcore%3Ar%3Aacct%3A%C3%A9/invocations");
}

#[test]
fn signing_errors_map_to_protocol_errors() {
    assert!(matches!(
        AAuthError::from_sig_error(HttpSigError::LabelMismatch),
        AAuthError::LabelMismatch
    ));
    assert!(matches!(
        AAuthError::from_sig_error(HttpSigError::InvalidHeader("h".to_string())),
        AAuthError::InvalidHeader(s) if s == "h"
    ));
    assert!(matches!(
        AAuthError::from_sig_error(HttpSigError::Base64Error(base64::DecodeError::InvalidPadding)),
        AAuthError::InvalidKey(s) if s == "Invalid padding"
    ));
    assert!(matches!(
        AAuthError::from_sig_error(HttpSigError::UrlError(url::ParseError::EmptyHost)),
        AAuthError::InvalidHeader(s) if s == "empty host"
    ));
}
