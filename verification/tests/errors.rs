use auth0_client::error::{
    CheckKind, Error, KeyLookupFailure, Remedy, SignatureCause, TransportFailure,
};
use auth0_client::transport::HttpReply;

#[test]
fn transport_failures_can_be_retried() {
    assert_eq!(Error::Transport(TransportFailure::Unreachable).remedy(), Remedy::RetryLater);
    assert_eq!(Error::Transport(TransportFailure::Status(502)).remedy(), Remedy::RetryLater);
}

#[test]
fn unusable_answers_call_for_an_alert() {
    assert_eq!(Error::MalformedResponse.remedy(), Remedy::Alert);
    assert_eq!(Error::MalformedKeySet.remedy(), Remedy::Alert);
}

#[test]
fn token_failures_reject_the_token() {
    let failures = [
        Error::MalformedToken,
        Error::UnknownSigningKey(KeyLookupFailure::MissingKeyId),
        Error::UnknownSigningKey(KeyLookupFailure::NotInKeySet),
        Error::InvalidSignature(SignatureCause::Mismatch),
        Error::InvalidSignature(SignatureCause::UnsupportedAlgorithm),
        Error::InvalidSignature(SignatureCause::MalformedEncoding),
        Error::ClaimValidationFailed(CheckKind::NotExpired),
    ];
    for failure in failures {
        assert_eq!(failure.remedy(), Remedy::RejectToken);
        assert!(!failure.is_operational());
    }
}

#[test]
fn operational_failures_are_told_apart_from_token_failures() {
    assert!(Error::Transport(TransportFailure::Unreachable).is_operational());
    assert!(Error::MalformedResponse.is_operational());
    assert!(Error::MalformedKeySet.is_operational());
    assert!(!Error::MalformedToken.is_operational());
}

#[test]
fn only_statuses_from_200_to_299_deliver_a_body() {
    let reply = |status: u16| HttpReply::Response { status, body: vec![1, 2, 3] };

    assert_eq!(reply(200).delivered(), Ok(&vec![1, 2, 3]));
    assert_eq!(reply(204).delivered(), Ok(&vec![1, 2, 3]));
    assert_eq!(reply(299).delivered(), Ok(&vec![1, 2, 3]));
    assert_eq!(reply(199).delivered(), Err(Error::Transport(TransportFailure::Status(199))));
    assert_eq!(reply(300).delivered(), Err(Error::Transport(TransportFailure::Status(300))));
    assert_eq!(reply(404).delivered(), Err(Error::Transport(TransportFailure::Status(404))));
    assert_eq!(reply(0).delivered(), Err(Error::Transport(TransportFailure::Status(0))));
}

#[test]
fn an_unreachable_provider_delivers_nothing() {
    assert_eq!(
        HttpReply::Unreachable.delivered(),
        Err(Error::Transport(TransportFailure::Unreachable))
    );
}
