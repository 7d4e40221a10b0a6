//! A presented token: reading its header, checking its signature, and the
//! decoded form that a successful verification returns.
//!
//! Decoding and cryptography are `alcoholic_jwt`'s. A token is never changed
//! here; it is read and classified.

use vstd::prelude::*;
use alcoholic_jwt::{token_kid, validate, ValidJWT, ValidationError, JWK};
use serde_json::Value;
use crate::claims::{text_view, Claims, ClaimsView};
use crate::error::{Error, SignatureCause};
use crate::json::{
    json_view,
    number_member,
    number_under,
    text_member,
    text_under,
    texts_member,
    texts_under,
    Json,
};

verus! {

#[verifier::external_type_specification]
#[verifier::external_body]
pub struct ExVerifiedToken(ValidJWT);

#[verifier::external_type_specification]
#[verifier::external_body]
pub struct ExTokenError(ValidationError);

/// What `alcoholic_jwt::token_kid` reads in a token's header: `None` where
/// the header cannot be decoded, `Some(None)` where it decodes and names no
/// key, else the key id it names.
pub uninterp spec fn header_key_id(token: Seq<char>) -> Option<Option<Seq<char>>>;

/// The content of the payload that a verified token carries: its `claims`.
pub uninterp spec fn token_payload(token: ValidJWT) -> Json;

/// The registered claims in a payload: the subject, the expiry and the
/// issuer where the payload holds them in their proper shape, and the
/// audiences it names, one or many.
pub open spec fn registered_claims(payload: Json) -> ClaimsView {
    ClaimsView {
        subject: text_under(payload, "sub"@),
        expiry: number_under(payload, "exp"@),
        issuer: text_under(payload, "iss"@),
        audience: texts_under(payload, "aud"@),
    }
}

/// `alcoholic_jwt::token_kid`. The header is decoded from the token's text
/// alone, so success and the key id read are what [`header_key_id`] stands
/// for.
#[verifier::external_body]
fn read_key_id(token: &str) -> (r: Result<Option<String>, ValidationError>)
    ensures
        r is Ok <==> header_key_id(token@) is Some,
        r is Ok ==> header_key_id(token@) == Some(text_view(r->Ok_0)),
{
    token_kid(token)
}

/// What `alcoholic_jwt::validate` answers for a token and a key when no
/// claim validations are asked of it: the verified token, or the fault it
/// reports.
pub uninterp spec fn checked(token: Seq<char>, key: JWK) -> Result<ValidJWT, TokenFault>;

/// The variant of an `alcoholic_jwt::ValidationError`, without what it
/// carries.
pub uninterp spec fn fault_view(error: ValidationError) -> TokenFault;

/// `alcoholic_jwt::validate` with no claim validations asked for: the
/// signature is checked against `key` and the token is decoded. With no
/// validations the clock is never read, so the answer is decided by the
/// token's text and the key alone, and is what [`checked`] stands for.
#[verifier::external_body]
fn check_signature(token: &str, key: &JWK) -> (r: Result<ValidJWT, ValidationError>)
    ensures
        match r {
            Ok(verified) => checked(token@, *key) == Ok::<ValidJWT, TokenFault>(verified),
            Err(error) => checked(token@, *key) == Err::<ValidJWT, TokenFault>(fault_view(error)),
        },
{
    validate(token, key, Vec::new())
}

/// The variant of an `alcoholic_jwt::ValidationError`, without what it
/// carries: what [`fault_view`] stands for.
#[verifier::external_body]
fn fault_of(error: &ValidationError) -> (fault: TokenFault)
    ensures
        fault == fault_view(*error),
{
    match error {
        ValidationError::InvalidComponents => TokenFault::InvalidComponents,
        ValidationError::InvalidBase64(_) => TokenFault::InvalidBase64,
        ValidationError::InvalidJWK => TokenFault::InvalidKey,
        ValidationError::InvalidSignature => TokenFault::InvalidSignature,
        ValidationError::OpenSSL(_) => TokenFault::Backend,
        ValidationError::JSON(_) => TokenFault::InvalidJson,
        ValidationError::InvalidClaims(_) => TokenFault::InvalidClaims,
    }
}

/// The `claims` field of an `alcoholic_jwt::ValidJWT`: the value whose
/// content [`token_payload`] stands for.
#[verifier::external_body]
fn payload_of<'a>(token: &'a ValidJWT) -> (payload: &'a Value)
    ensures
        json_view(*payload) == token_payload(*token),
{
    &token.claims
}

/// What the verifier can report of a token it does not accept.
#[derive(Clone, Copy, Debug, PartialEq, Eq, Structural)]
pub enum TokenFault {
    /// The token does not have the parts of a signed token.
    InvalidComponents,
    /// A segment of the token is not valid base64. The signature segment is
    /// decoded first, the others only once the signature has been accepted.
    InvalidBase64,
    /// The key's material cannot be decoded.
    InvalidKey,
    /// The signature does not belong to the signed text under the key.
    InvalidSignature,
    /// The cryptographic backend failed on the key or the signature.
    Backend,
    /// The payload is not a JSON claims object.
    InvalidJson,
    /// The verifier's own claim validations failed. None are ever asked of
    /// it here.
    InvalidClaims,
}

impl TokenFault {
    /// The failure that a caller is handed for each report: a signature
    /// failure with its cause where the report names one, a malformed token
    /// where the token could not be taken apart.
    pub open spec fn spec_error(&self) -> Error {
        match *self {
            TokenFault::InvalidSignature => Error::InvalidSignature(SignatureCause::Mismatch),
            TokenFault::InvalidBase64 => Error::InvalidSignature(SignatureCause::MalformedEncoding),
            TokenFault::InvalidKey | TokenFault::Backend => Error::InvalidSignature(
                SignatureCause::UnsupportedAlgorithm,
            ),
            TokenFault::InvalidComponents
            | TokenFault::InvalidJson
            | TokenFault::InvalidClaims => Error::MalformedToken,
        }
    }

    #[verifier::when_used_as_spec(spec_error)]
    pub fn error(&self) -> (e: Error)
        ensures
            e == self.spec_error(),
    {
        match self {
            TokenFault::InvalidSignature => Error::InvalidSignature(SignatureCause::Mismatch),
            TokenFault::InvalidBase64 => Error::InvalidSignature(SignatureCause::MalformedEncoding),
            TokenFault::InvalidKey => Error::InvalidSignature(SignatureCause::UnsupportedAlgorithm),
            TokenFault::Backend => Error::InvalidSignature(SignatureCause::UnsupportedAlgorithm),
            _ => Error::MalformedToken,
        }
    }
}

/// A token whose signature was accepted.
pub struct DecodedToken {
    /// The registered claims of the payload, as the checks read them.
    pub claims: Claims,
    /// The decoded header and payload, as the verifier returned them.
    pub token: ValidJWT,
}

/// The key id that a token's header names, if it names one.
///
/// A token whose header cannot be decoded is malformed; one whose header
/// decodes without a key id is passed on, and is turned away when its key is
/// looked up.
pub fn token_key_id(token: &str) -> (r: Result<Option<String>, Error>)
    ensures
        match header_key_id(token@) {
            Some(key_id) => r is Ok && text_view(r->Ok_0) == key_id,
            None => r == Err::<Option<String>, Error>(Error::MalformedToken),
        },
{
    match read_key_id(token) {
        Ok(key_id) => Ok(key_id),
        Err(_) => Err(Error::MalformedToken),
    }
}

/// Checks the token's signature against `key` and decodes the token.
///
/// The verifier's answer stands: a token it accepts comes back in its
/// decoded form, with the registered claims of the payload that the verifier
/// decoded, and any other is turned away with the verifier's report.
pub(crate) fn verify_signature(token: &str, key: &JWK) -> (report: Result<DecodedToken, TokenFault>)
    ensures
        match checked(token@, *key) {
            Ok(verified) => report is Ok && report->Ok_0.token == verified
                && report->Ok_0.claims@ == registered_claims(token_payload(verified)),
            Err(fault) => report == Err::<DecodedToken, TokenFault>(fault),
        },
{
    match check_signature(token, key) {
        Ok(verified) => Ok(decode(verified)),
        Err(error) => Err(fault_of(&error)),
    }
}

/// Reads the registered claims out of a verified token.
fn decode(verified: ValidJWT) -> (decoded: DecodedToken)
    ensures
        decoded.token == verified,
        decoded.claims@ == registered_claims(token_payload(verified)),
{
    let payload = payload_of(&verified);
    let claims = Claims {
        subject: text_member(payload, "sub"),
        expiry: number_member(payload, "exp"),
        issuer: text_member(payload, "iss"),
        audience: texts_member(payload, "aud"),
    };
    DecodedToken { claims, token: verified }
}

} // verus!
