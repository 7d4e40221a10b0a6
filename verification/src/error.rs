//! The failures a caller can be handed, and what each one calls for.

use vstd::prelude::*;

verus! {

/// Why an exchange with the provider produced nothing usable.
#[derive(Clone, Copy, Debug, PartialEq, Eq, Structural)]
pub enum TransportFailure {
    /// No response arrived: connection, DNS or read failure.
    Unreachable,
    /// A response arrived with a status outside `200..=299`.
    Status(u16),
}

/// Why no signing key could be chosen for a token.
#[derive(Clone, Copy, Debug, PartialEq, Eq, Structural)]
pub enum KeyLookupFailure {
    /// The token's header names no key.
    MissingKeyId,
    /// The header names a key that the key set does not hold.
    NotInKeySet,
}

/// Why a signature was not accepted.
#[derive(Clone, Copy, Debug, PartialEq, Eq, Structural)]
pub enum SignatureCause {
    /// The signature does not belong to the signed text under the chosen key.
    Mismatch,
    /// The key, or the algorithm it asks for, is one the verifier cannot use.
    UnsupportedAlgorithm,
    /// The signature segment is not valid base64.
    MalformedEncoding,
}

/// The checks a caller can ask for, without their arguments.
#[derive(Clone, Copy, Debug, PartialEq, Eq, Structural)]
pub enum CheckKind {
    SubjectPresent,
    NotExpired,
    IssuerMatches,
    AudienceMatches,
}

/// Every way a call into this crate can fail.
#[derive(Clone, Copy, Debug, PartialEq, Eq, Structural)]
pub enum Error {
    /// The provider could not be reached, or answered with a failure status.
    Transport(TransportFailure),
    /// The token endpoint's body is not an access-token response.
    MalformedResponse,
    /// The key discovery body is not a key set.
    MalformedKeySet,
    /// The token cannot be decoded.
    MalformedToken,
    /// The token's signing key cannot be determined.
    UnknownSigningKey(KeyLookupFailure),
    /// The signature check failed.
    InvalidSignature(SignatureCause),
    /// A requested claim check failed; the first one that did is named.
    ClaimValidationFailed(CheckKind),
}

/// What a caller should do about a failure.
#[derive(Clone, Copy, Debug, PartialEq, Eq, Structural)]
pub enum Remedy {
    /// The provider may answer next time: try again later.
    RetryLater,
    /// The provider answered with something unusable: sending the same
    /// request again will not help, raise an alert.
    Alert,
    /// The presented token is not acceptable: reject it.
    RejectToken,
}

pub type Auth0Result<T> = Result<T, Error>;

impl Error {
    /// The remedy for each kind of failure.
    pub open spec fn spec_remedy(&self) -> Remedy {
        match *self {
            Error::Transport(_) => Remedy::RetryLater,
            Error::MalformedResponse | Error::MalformedKeySet => Remedy::Alert,
            Error::MalformedToken
            | Error::UnknownSigningKey(_)
            | Error::InvalidSignature(_)
            | Error::ClaimValidationFailed(_) => Remedy::RejectToken,
        }
    }

    /// True for the failures that say something about the provider rather
    /// than about a token.
    pub open spec fn spec_is_operational(&self) -> bool {
        self.spec_remedy() != Remedy::RejectToken
    }

    #[verifier::when_used_as_spec(spec_remedy)]
    pub fn remedy(&self) -> (r: Remedy)
        ensures
            r == self.spec_remedy(),
    {
        match self {
            Error::Transport(_) => Remedy::RetryLater,
            Error::MalformedResponse => Remedy::Alert,
            Error::MalformedKeySet => Remedy::Alert,
            _ => Remedy::RejectToken,
        }
    }

    #[verifier::when_used_as_spec(spec_is_operational)]
    pub fn is_operational(&self) -> (r: bool)
        ensures
            r == self.spec_is_operational(),
    {
        match self {
            Error::Transport(_) | Error::MalformedResponse | Error::MalformedKeySet => true,
            _ => false,
        }
    }
}

} // verus!
