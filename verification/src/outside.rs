//! Declarations of the outside types that the library carries.

use vstd::prelude::*;

verus! {

/// `base64::DecodeError`, carried opaquely by the error types.
#[verifier::external_type_specification]
#[verifier::external_body]
pub struct ExDecodeError(base64::DecodeError);

/// `url::ParseError`, carried opaquely by the error types.
#[verifier::external_type_specification]
#[verifier::external_body]
pub struct ExUrlParseError(url::ParseError);

/// `serde_json::Error`, carried opaquely by the error types.
#[verifier::external_type_specification]
#[verifier::external_body]
pub struct ExJsonError(serde_json::Error);

} // verus!
