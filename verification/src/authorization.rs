//! Authenticating a client and verifying presented tokens.
//!
//! A token is verified in one pass, and the first step that fails ends it:
//! the header is decoded, the key set is read from the discovery reply, the
//! signing key is chosen by the key id in the header, the signature is
//! checked, and the claims are held against the checks the caller asks for.
//! Nothing is retried and no other key is tried.

use vstd::prelude::*;
use alcoholic_jwt::ValidJWT;
use crate::claims::{
    all_hold,
    judge,
    lemma_first_failure,
    policy_view,
    text_view,
    validate_claims,
    CheckView,
    ValidationCheck,
};
use crate::client::{read_token_response, token_response_of, Auth0Client};
use crate::error::{Auth0Result, Error, KeyLookupFailure, SignatureCause};
use crate::keyset::{
    delivered_key_ids,
    found_key,
    lookup_failure,
    parsed_key_set,
    read_key_set,
    resolve_key,
};
use crate::token::{
    checked,
    header_key_id,
    registered_claims,
    token_key_id,
    token_payload,
    verify_signature,
    DecodedToken,
    TokenFault,
};
use crate::transport::HttpReply;

verus! {

/// A client that can take the provider's answer to a token request and hold
/// the token issued.
///
/// Two calls on one client write to the same place: the one made last
/// decides what is held, so callers that share a client have to put their
/// calls in order themselves.
pub trait Authenticatable {
    /// The bearer string held, if any.
    spec fn token(&self) -> Option<Seq<char>>;

    /// Completes an authentication with the token endpoint's reply.
    ///
    /// A reply that is a transport failure is answered with that failure.
    /// The token held changes only on success, and then all at once: a call
    /// that fails leaves what was held before.
    fn authenticate(&mut self, reply: &HttpReply) -> (r: Auth0Result<()>)
        ensures
            reply.failure() matches Some(failure) ==> r == Err::<(), Error>(
                Error::Transport(failure),
            ),
            reply.failure() is None ==> r is Ok || r == Err::<(), Error>(Error::MalformedResponse),
            r is Ok ==> final(self).token() is Some,
            r is Err ==> final(self).token() == old(self).token(),
    ;

    /// The access token, or `None` while the client has not authenticated.
    fn access_token(&self) -> (token: Option<String>)
        ensures
            text_view(token) == self.token(),
    ;
}

impl Authenticatable for Auth0Client {
    open spec fn token(&self) -> Option<Seq<char>> {
        self.held()
    }

    fn authenticate(&mut self, reply: &HttpReply) -> (r: Auth0Result<()>)
        ensures
            final(self).credentials() == old(self).credentials(),
            r is Err ==> *final(self) == *old(self),
            reply.failure() is None ==> match token_response_of(reply.payload()) {
                Some(issued) => r is Ok && final(self).held() == Some(issued.0),
                None => r == Err::<(), Error>(Error::MalformedResponse),
            },
    {
        match reply.delivered() {
            Err(e) => Err(e),
            Ok(body) => self.accept(read_token_response(body)),
        }
    }

    fn access_token(&self) -> (token: Option<String>) {
        self.bearer()
    }
}

/// The failure, if any, that ends a verification before the signature is
/// looked at: a header that cannot be decoded, a discovery reply that
/// delivers no key set, or a key set without the key the header names.
pub open spec fn early_failure(token: Seq<char>, reply: HttpReply) -> Option<Error> {
    match header_key_id(token) {
        None => Some(Error::MalformedToken),
        Some(key_id) => match delivered_key_ids(reply) {
            Err(e) => Some(e),
            Ok(ids) => match lookup_failure(ids, key_id) {
                Some(failure) => Some(Error::UnknownSigningKey(failure)),
                None => None,
            },
        },
    }
}

/// What is made of the signature check's report: a report of failure is
/// passed on as the failure it stands for, and an accepted token is returned
/// if its claims pass every check; otherwise the first check that does not
/// hold is named.
pub open spec fn spec_verdict(
    report: Result<DecodedToken, TokenFault>,
    policy: Seq<CheckView>,
    now: u64,
) -> Result<DecodedToken, Error> {
    match report {
        Err(fault) => Err(fault.spec_error()),
        Ok(decoded) => match judge(policy, decoded.claims@, now) {
            Ok(()) => Ok(decoded),
            Err(kind) => Err(Error::ClaimValidationFailed(kind)),
        },
    }
}

/// What the signature check answers for a token that passes the early
/// steps: the token is checked against the key that the delivered key set
/// holds under the key id of the token's header.
pub open spec fn signature_report(token: Seq<char>, reply: HttpReply) -> Result<
    ValidJWT,
    TokenFault,
>
    recommends
        early_failure(token, reply) is None,
{
    let key_set = parsed_key_set(reply.payload())->Some_0;
    let key_id = header_key_id(token)->Some_0->Some_0;
    checked(token, found_key(key_set, key_id)->Some_0)
}

/// The result of a whole verification: the failure of the first step that
/// fails, or the token as the signature check verified it.
pub open spec fn verification(
    token: Seq<char>,
    reply: HttpReply,
    policy: Seq<CheckView>,
    now: u64,
) -> Result<ValidJWT, Error> {
    match early_failure(token, reply) {
        Some(e) => Err(e),
        None => match signature_report(token, reply) {
            Err(fault) => Err(fault.spec_error()),
            Ok(verified) => match judge(policy, registered_claims(token_payload(verified)), now) {
                Ok(()) => Ok(verified),
                Err(kind) => Err(Error::ClaimValidationFailed(kind)),
            },
        },
    }
}

/// `result` is what a caller is handed for a verification that ends in
/// `expected`: the same failure, or the verified token in its decoded form,
/// with the registered claims of its payload.
pub open spec fn answers(result: Result<DecodedToken, Error>, expected: Result<ValidJWT, Error>) -> bool {
    match expected {
        Ok(verified) => result is Ok && result->Ok_0.token == verified && result->Ok_0.claims@
            == registered_claims(token_payload(verified)),
        Err(e) => result == Err::<DecodedToken, Error>(e),
    }
}

/// What a caller can tell a result by: success, or the failure.
pub open spec fn classification(result: Result<DecodedToken, Error>) -> Option<Error> {
    match result {
        Ok(_) => None,
        Err(e) => Some(e),
    }
}

/// The last two steps of a verification: the signature check's report is
/// turned into the caller's result, with the claims of an accepted token
/// held against `policy` at the time `now`.
pub fn verdict(
    report: Result<DecodedToken, TokenFault>,
    policy: &Vec<ValidationCheck>,
    now: u64,
) -> (r: Result<DecodedToken, Error>)
    ensures
        r == spec_verdict(report, policy_view(policy@), now),
{
    match report {
        Err(fault) => Err(fault.error()),
        Ok(decoded) => match validate_claims(&decoded.claims, policy, now) {
            Ok(()) => Ok(decoded),
            Err(kind) => Err(Error::ClaimValidationFailed(kind)),
        },
    }
}

/// Verifies a presented token and returns its decoded form.
///
/// * `token` - the token as it was presented.
/// * `reply` - the reply to the request for the provider's key set.
/// * `validations` - the checks that the claims have to pass.
/// * `now` - the time, in seconds since the Unix epoch. It is read once by
///   the caller, so every check of one call sees the same time.
///
/// The result is decided by these four alone: the first step that fails
/// gives the failure, and a token that passes them all is returned as the
/// signature check verified it.
pub fn valid_jwt(
    token: &str,
    reply: &HttpReply,
    validations: Vec<ValidationCheck>,
    now: u64,
) -> (r: Auth0Result<DecodedToken>)
    ensures
        answers(r, verification(token@, *reply, policy_view(validations@), now)),
        r matches Ok(decoded) ==> all_hold(policy_view(validations@), decoded.claims@, now),
{
    let key_id = token_key_id(token)?;
    let key_set = read_key_set(reply)?;
    let key = resolve_key(&key_set, &key_id)?;
    let report = verify_signature(token, key);
    let r = verdict(report, &validations, now);
    proof {
        if r is Ok {
            lemma_first_failure(policy_view(validations@), r->Ok_0.claims@, now);
        }
    }
    r
}

/// A token that names a key of the delivered key set, whose signature the
/// check accepts and whose claims pass every check asked for, is accepted,
/// and what is returned is the token as the signature check verified it.
pub proof fn lemma_valid_token_is_accepted(
    token: Seq<char>,
    reply: HttpReply,
    verified: ValidJWT,
    policy: Seq<CheckView>,
    now: u64,
)
    requires
        header_key_id(token) matches Some(Some(key_id)) && delivered_key_ids(reply) matches Ok(ids)
            && ids.contains(Some(key_id)),
        signature_report(token, reply) == Ok::<ValidJWT, TokenFault>(verified),
        all_hold(policy, registered_claims(token_payload(verified)), now),
    ensures
        verification(token, reply, policy, now) == Ok::<ValidJWT, Error>(verified),
{
    lemma_first_failure(policy, registered_claims(token_payload(verified)), now);
}

/// A token that names a key which the delivered key set does not hold is
/// turned away as signed by an unknown key, whatever its signature and
/// whatever is asked of the claims.
pub proof fn lemma_absent_key_is_unknown(
    token: Seq<char>,
    reply: HttpReply,
    policy: Seq<CheckView>,
    now: u64,
)
    requires
        header_key_id(token) matches Some(Some(key_id)) && delivered_key_ids(reply) matches Ok(ids)
            && !ids.contains(Some(key_id)),
    ensures
        verification(token, reply, policy, now) == Err::<ValidJWT, Error>(
            Error::UnknownSigningKey(KeyLookupFailure::NotInKeySet),
        ),
{
}

/// A token whose key is found and whose signature does not match is turned
/// away for the mismatch, not as malformed.
pub proof fn lemma_wrong_signature_is_a_mismatch(
    token: Seq<char>,
    reply: HttpReply,
    policy: Seq<CheckView>,
    now: u64,
)
    requires
        early_failure(token, reply) is None,
        signature_report(token, reply) == Err::<ValidJWT, TokenFault>(TokenFault::InvalidSignature),
    ensures
        verification(token, reply, policy, now) == Err::<ValidJWT, Error>(
            Error::InvalidSignature(SignatureCause::Mismatch),
        ),
{
}

/// Verifying again gives the same answer: two results for the same token,
/// the same discovery reply, the same checks and the same time are
/// classified alike, and where they are successes they carry the same
/// verified token and the same claims.
pub proof fn lemma_verification_repeats(
    token: Seq<char>,
    reply: HttpReply,
    policy: Seq<CheckView>,
    now: u64,
    first: Result<DecodedToken, Error>,
    second: Result<DecodedToken, Error>,
)
    requires
        answers(first, verification(token, reply, policy, now)),
        answers(second, verification(token, reply, policy, now)),
    ensures
        classification(first) == classification(second),
        first is Ok ==> first->Ok_0.token == second->Ok_0.token && first->Ok_0.claims@
            == second->Ok_0.claims@,
{
}

} // verus!
