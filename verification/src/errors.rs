//! Error types: `HttpSigError` of the HTTP signing layer and `AAuthError` of the AAuth
//! protocol layer, with the mapping from the first to the second.

use vstd::prelude::*;

verus! {

/// Errors from RFC 9421 HTTP Message Signatures and the HTTP Signature Keys spec.
#[derive(Debug)]
pub enum HttpSigError {
    MissingSignatureKey,
    MissingSignatureInput,
    MissingSignature,
    LabelMismatch,
    SignatureKeyNotCovered,
    TimestampExpired,
    InvalidSignature(String),
    UnsupportedScheme(String),
    UnsupportedAlgorithm(String),
    ContentDigestMismatch,
    InvalidHeader(String),
    InvalidKey(String),
    Base64Error(base64::DecodeError),
    UrlError(url::ParseError),
    JsonError(serde_json::Error),
}

/// AAuth protocol errors.
///
/// The signing-layer variants mirror `HttpSigError`, for consumers that match on them.
#[derive(Debug)]
pub enum AAuthError {
    MissingSignatureKey,
    MissingSignatureInput,
    MissingSignature,
    LabelMismatch,
    SignatureKeyNotCovered,
    TimestampExpired,
    InvalidSignature(String),
    UnsupportedScheme(String),
    UnsupportedAlgorithm(String),
    ContentDigestMismatch,
    InvalidHeader(String),
    InvalidKey(String),
    Base64Error(base64::DecodeError),
    UrlError(url::ParseError),
    JsonError(serde_json::Error),
    JwksFetchError(String),
    JwtValidationError(String),
    AudienceMismatch,
    MissingClaim(String),
    InvalidIssuerUrl,
    ActClaimMismatch,
}

/// The mathematical value of an `AAuthError`: the variant, with its text or the
/// outside crate's error value.
pub enum AAuthErrorView {
    MissingSignatureKey,
    MissingSignatureInput,
    MissingSignature,
    LabelMismatch,
    SignatureKeyNotCovered,
    TimestampExpired,
    InvalidSignature(Seq<char>),
    UnsupportedScheme(Seq<char>),
    UnsupportedAlgorithm(Seq<char>),
    ContentDigestMismatch,
    InvalidHeader(Seq<char>),
    InvalidKey(Seq<char>),
    Base64Error(base64::DecodeError),
    UrlError(url::ParseError),
    JsonError(serde_json::Error),
    JwksFetchError(Seq<char>),
    JwtValidationError(Seq<char>),
    AudienceMismatch,
    MissingClaim(Seq<char>),
    InvalidIssuerUrl,
    ActClaimMismatch,
}

impl View for AAuthError {
    type V = AAuthErrorView;

    open spec fn view(&self) -> AAuthErrorView {
        match self {
            AAuthError::MissingSignatureKey => AAuthErrorView::MissingSignatureKey,
            AAuthError::MissingSignatureInput => AAuthErrorView::MissingSignatureInput,
            AAuthError::MissingSignature => AAuthErrorView::MissingSignature,
            AAuthError::LabelMismatch => AAuthErrorView::LabelMismatch,
            AAuthError::SignatureKeyNotCovered => AAuthErrorView::SignatureKeyNotCovered,
            AAuthError::TimestampExpired => AAuthErrorView::TimestampExpired,
            AAuthError::InvalidSignature(s) => AAuthErrorView::InvalidSignature(s@),
            AAuthError::UnsupportedScheme(s) => AAuthErrorView::UnsupportedScheme(s@),
            AAuthError::UnsupportedAlgorithm(s) => AAuthErrorView::UnsupportedAlgorithm(s@),
            AAuthError::ContentDigestMismatch => AAuthErrorView::ContentDigestMismatch,
            AAuthError::InvalidHeader(s) => AAuthErrorView::InvalidHeader(s@),
            AAuthError::InvalidKey(s) => AAuthErrorView::InvalidKey(s@),
            AAuthError::Base64Error(e) => AAuthErrorView::Base64Error(*e),
            AAuthError::UrlError(e) => AAuthErrorView::UrlError(*e),
            AAuthError::JsonError(e) => AAuthErrorView::JsonError(*e),
            AAuthError::JwksFetchError(s) => AAuthErrorView::JwksFetchError(s@),
            AAuthError::JwtValidationError(s) => AAuthErrorView::JwtValidationError(s@),
            AAuthError::AudienceMismatch => AAuthErrorView::AudienceMismatch,
            AAuthError::MissingClaim(s) => AAuthErrorView::MissingClaim(s@),
            AAuthError::InvalidIssuerUrl => AAuthErrorView::InvalidIssuerUrl,
            AAuthError::ActClaimMismatch => AAuthErrorView::ActClaimMismatch,
        }
    }
}

/// The mathematical value of a result of this library.
pub open spec fn result_view<T: View>(r: Result<T, AAuthError>) -> Result<T::V, AAuthErrorView> {
    match r {
        Ok(v) => Ok(v@),
        Err(e) => Err(e@),
    }
}

/// The mathematical value of the outcome of a check.
pub open spec fn check_view(r: Result<(), AAuthError>) -> Result<(), AAuthErrorView> {
    match r {
        Ok(_) => Ok(()),
        Err(e) => Err(e@),
    }
}

/// The `Display` text of a `base64::DecodeError` (a `Copy` enum of integers).
pub uninterp spec fn decode_error_display(e: base64::DecodeError) -> Seq<char>;

/// The `Display` text of a `url::ParseError` (a `Copy` enum without fields).
pub uninterp spec fn url_error_display(e: url::ParseError) -> Seq<char>;

/// The `Display` text of a `base64::DecodeError` (its `to_string`).
///
/// The contract claims only that the text is a function of the error value
/// (the name `decode_error_display`).
#[verifier::external_body]
fn decode_error_text(e: &base64::DecodeError) -> (s: String)
    ensures
        s@ == decode_error_display(*e),
{
    e.to_string()
}

/// The `Display` text of a `url::ParseError` (its `to_string`).
///
/// The contract claims only that the text is a function of the error value
/// (the name `url_error_display`).
#[verifier::external_body]
fn url_error_text(e: &url::ParseError) -> (s: String)
    ensures
        s@ == url_error_display(*e),
{
    e.to_string()
}

impl AAuthError {
    /// Maps a signing-layer error onto the protocol error of the same meaning.
    /// A base64 error becomes `InvalidKey` and a URL error `InvalidHeader`, both
    /// with the error's text.
    pub fn from_sig_error(e: HttpSigError) -> (r: AAuthError)
        ensures
            match (e, r) {
                (HttpSigError::MissingSignatureKey, AAuthError::MissingSignatureKey) => true,
                (HttpSigError::MissingSignatureInput, AAuthError::MissingSignatureInput) => true,
                (HttpSigError::MissingSignature, AAuthError::MissingSignature) => true,
                (HttpSigError::LabelMismatch, AAuthError::LabelMismatch) => true,
                (HttpSigError::SignatureKeyNotCovered, AAuthError::SignatureKeyNotCovered) => true,
                (HttpSigError::TimestampExpired, AAuthError::TimestampExpired) => true,
                (HttpSigError::InvalidSignature(a), AAuthError::InvalidSignature(b)) => a == b,
                (HttpSigError::UnsupportedScheme(a), AAuthError::UnsupportedScheme(b)) => a == b,
                (HttpSigError::UnsupportedAlgorithm(a), AAuthError::UnsupportedAlgorithm(b)) => a == b,
                (HttpSigError::ContentDigestMismatch, AAuthError::ContentDigestMismatch) => true,
                (HttpSigError::InvalidHeader(a), AAuthError::InvalidHeader(b)) => a == b,
                (HttpSigError::InvalidKey(a), AAuthError::InvalidKey(b)) => a == b,
                (HttpSigError::Base64Error(b), AAuthError::InvalidKey(s)) => s@
                    == decode_error_display(b),
                (HttpSigError::UrlError(u), AAuthError::InvalidHeader(s)) => s@ == url_error_display(
                    u,
                ),
                (HttpSigError::JsonError(a), AAuthError::JsonError(b)) => a == b,
                _ => false,
            },
    {
        match e {
            HttpSigError::MissingSignatureKey => AAuthError::MissingSignatureKey,
            HttpSigError::MissingSignatureInput => AAuthError::MissingSignatureInput,
            HttpSigError::MissingSignature => AAuthError::MissingSignature,
            HttpSigError::LabelMismatch => AAuthError::LabelMismatch,
            HttpSigError::SignatureKeyNotCovered => AAuthError::SignatureKeyNotCovered,
            HttpSigError::TimestampExpired => AAuthError::TimestampExpired,
            HttpSigError::InvalidSignature(s) => AAuthError::InvalidSignature(s),
            HttpSigError::UnsupportedScheme(s) => AAuthError::UnsupportedScheme(s),
            HttpSigError::UnsupportedAlgorithm(s) => AAuthError::UnsupportedAlgorithm(s),
            HttpSigError::ContentDigestMismatch => AAuthError::ContentDigestMismatch,
            HttpSigError::InvalidHeader(s) => AAuthError::InvalidHeader(s),
            HttpSigError::InvalidKey(s) => AAuthError::InvalidKey(s),
            HttpSigError::Base64Error(e) => AAuthError::InvalidKey(decode_error_text(&e)),
            HttpSigError::UrlError(e) => AAuthError::InvalidHeader(url_error_text(&e)),
            HttpSigError::JsonError(e) => AAuthError::JsonError(e),
        }
    }
}

} // verus!
