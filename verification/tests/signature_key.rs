use aauth::{
    build_signature_key_hwk, build_signature_key_jwks, build_signature_key_jwt,
    parse_signature_key, AAuthError, JWK,
};

#[test]
fn test_parse_signature_key_hwk_semicolon() {
    let header = r#"sig1=hwk;kty="OKP";crv="Ed25519";x="JrQLj5P_89iXES9-vFgrIy29clF9CC_oPPsw3c5D0bs""#;
    let sig_key = parse_signature_key(header).unwrap();
    assert_eq!(sig_key.label, "sig1");
    assert_eq!(sig_key.scheme, "hwk");
    assert_eq!(sig_key.params.get("kty"), Some(&"OKP".to_string()));
    assert_eq!(sig_key.params.get("crv"), Some(&"Ed25519".to_string()));
}

#[test]
fn test_parse_signature_key_hwk_legacy_parenthesized() {
    // Earlier format, still read
    let header = r#"sig1=(scheme=hwk kty="OKP" crv="Ed25519" x="JrQLj5P_89iXES9-vFgrIy29clF9CC_oPPsw3c5D0bs")"#;
    let sig_key = parse_signature_key(header).unwrap();
    assert_eq!(sig_key.label, "sig1");
    assert_eq!(sig_key.scheme, "hwk");
    assert_eq!(sig_key.params.get("kty"), Some(&"OKP".to_string()));
}

#[test]
fn test_parse_signature_key_jwks() {
    let header = r#"sig1=jwks_uri;id="https://agent.example";dwk="aauth-agent.json";kid="key-1""#;
    let sig_key = parse_signature_key(header).unwrap();
    assert_eq!(sig_key.label, "sig1");
    assert_eq!(sig_key.scheme, "jwks_uri");
    assert_eq!(
        sig_key.params.get("id"),
        Some(&"https://agent.example".to_string())
    );
    assert_eq!(sig_key.params.get("kid"), Some(&"key-1".to_string()));
    assert_eq!(sig_key.params.get("dwk"), Some(&"aauth-agent.json".to_string()));
}

fn okp_key() -> JWK {
    JWK {
        kty: "OKP".to_string(),
        crv: Some("Ed25519".to_string()),
        x: Some("JrQLj5P_89iXES9-vFgrIy29clF9CC_oPPsw3c5D0bs".to_string()),
        y: None,
        d: None,
        n: None,
        e: None,
        kid: None,
        alg: None,
        extra: Default::default(),
    }
}

#[test]
fn test_build_signature_key_hwk() {
    let jwk = okp_key();
    let header = build_signature_key_hwk("sig1", &jwk).unwrap();
    assert_eq!(
        header,
        r#"sig1=hwk;kty="OKP";crv="Ed25519";x="JrQLj5P_89iXES9-vFgrIy29clF9CC_oPPsw3c5D0bs""#
    );
}

#[test]
fn test_build_signature_key_jwks() {
    let header = build_signature_key_jwks(
        "sig1",
        "https://agent.example",
        "key-1",
        "aauth-agent.json",
    );
    assert_eq!(
        header,
        r#"sig1=jwks_uri;id="https://agent.example";dwk="aauth-agent.json";kid="key-1""#
    );
}

#[test]
fn build_signature_key_jwt_format() {
    let header = build_signature_key_jwt("sig1", "eyJ.a.b");
    assert_eq!(header, r#"sig1=jwt;jwt="eyJ.a.b""#);
}

#[test]
fn build_hwk_without_optional_members() {
    let mut jwk = okp_key();
    jwk.crv = None;
    jwk.x = None;
    assert_eq!(build_signature_key_hwk("s", &jwk).unwrap(), r#"s=hwk;kty="OKP""#);
}

#[test]
fn hwk_header_reads_back() {
    let jwk = okp_key();
    let header = build_signature_key_hwk("sig1", &jwk).unwrap();
    let key = parse_signature_key(&header).unwrap();
    assert_eq!(key.label, "sig1");
    assert_eq!(key.scheme, "hwk");
    assert_eq!(key.params.len(), 3);
    assert_eq!(key.params.get("kty"), Some(&"OKP".to_string()));
    assert_eq!(key.params.get("crv"), Some(&"Ed25519".to_string()));
    assert_eq!(
        key.params.get("x"),
        Some(&"JrQLj5P_89iXES9-vFgrIy29clF9CC_oPPsw3c5D0bs".to_string())
    );
}

#[test]
fn jwt_header_reads_back() {
    let header = build_signature_key_jwt("sig2", "aaa.bbb.ccc");
    let key = parse_signature_key(&header).unwrap();
    assert_eq!(key.label, "sig2");
    assert_eq!(key.scheme, "jwt");
    assert_eq!(key.params.len(), 1);
    assert_eq!(key.params.get("jwt"), Some(&"aaa.bbb.ccc".to_string()));
}

#[test]
fn header_without_equals_is_refused() {
    match parse_signature_key("sig1") {
        Err(AAuthError::InvalidHeader(m)) => {
            assert_eq!(m, "invalid signature-key header: sig1")
        }
        other => panic!("unexpected: {:?}", other),
    }
}

#[test]
fn parenthesized_word_before_scheme_is_refused() {
    match parse_signature_key("sig1=(hwk kty=\"OKP\")") {
        Err(AAuthError::InvalidHeader(m)) => assert_eq!(m, "missing scheme: hwk"),
        other => panic!("unexpected: {:?}", other),
    }
}

#[test]
fn parenthesized_without_scheme_is_refused() {
    match parse_signature_key("sig1=(kty=\"OKP\")") {
        Err(AAuthError::InvalidHeader(m)) => assert_eq!(m, "missing scheme"),
        other => panic!("unexpected: {:?}", other),
    }
}

#[test]
fn parenthesized_quoted_space_and_later_bare_word() {
    let key = parse_signature_key("  lbl = (scheme=\"jwt\" note=\"a b\" stray)  ").unwrap();
    assert_eq!(key.label, "lbl");
    assert_eq!(key.scheme, "jwt");
    assert_eq!(key.params.get("note"), Some(&"a b".to_string()));
    assert_eq!(key.params.len(), 1);
}

#[test]
fn semicolon_later_parameter_replaces_earlier() {
    let key = parse_signature_key("k= x ; a=1 ; junk ; a=\"2\" ;b= 3").unwrap();
    assert_eq!(key.label, "k");
    assert_eq!(key.scheme, "x");
    assert_eq!(key.params.len(), 2);
    assert_eq!(key.params.get("a"), Some(&"2".to_string()));
    assert_eq!(key.params.get("b"), Some(&"3".to_string()));
    assert_eq!(key.params.get("junk"), None);
}

#[test]
fn semicolon_value_keeps_equals_signs() {
    let key = parse_signature_key("k=jwt;jwt=\"a=b=c\"").unwrap();
    assert_eq!(key.params.get("jwt"), Some(&"a=b=c".to_string()));
}

#[test]
fn empty_scheme_is_accepted_in_semicolon_format() {
    let key = parse_signature_key("k=;a=1").unwrap();
    assert_eq!(key.scheme, "");
    assert_eq!(key.params.get("a"), Some(&"1".to_string()));
}
