# aauth

AAuth (agent-to-agent authentication) building blocks, verified with Verus:

- `signature_key`: the Signature-Key header (RFC 8941 structured-field style
  `label=scheme;name="value"` and the parenthesized form), parsed and built,
  with the proof that a built header reads back as what it was built from.
- `params`: the header's parameter map.
- `jwt`, `json`, `jwk`: reading a JWT's header and claims without checking the
  signature, and reading claims (`cnf.jwk`, `act.sub`, `scope`, `aud`), plus the
  issuer URL rule.
- `agent_token`, `auth_token`: the validation rules of `aa-agent+jwt` and
  `aa-auth+jwt` tokens, given the outcome of checking the token's signature
  and time claims.
- `agentcore`: the AgentCore runtime target read from its ARN.
- `errors`, `outside`, `text`: error types, outside types, string model.

`app/` holds the copies of the types that carry `serde` and `thiserror` derives.
