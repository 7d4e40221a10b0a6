use auth0_client::claims::{holds_text, validate_claims, Claims, ValidationCheck};
use auth0_client::error::CheckKind;

fn claims() -> Claims {
    Claims {
        subject: Some("42".to_owned()),
        expiry: Some(1_536_054_293),
        issuer: Some("auth.test.aprila.no".to_owned()),
        audience: vec!["api".to_owned(), "admin".to_owned()],
    }
}

fn bare() -> Claims {
    Claims { subject: None, expiry: None, issuer: None, audience: vec![] }
}

#[test]
fn an_empty_policy_passes_any_claims() {
    assert_eq!(validate_claims(&claims(), &vec![], 0), Ok(()));
    assert_eq!(validate_claims(&bare(), &vec![], u64::MAX), Ok(()));
}

#[test]
fn subject_has_to_be_there_and_not_empty() {
    let check = ValidationCheck::SubjectPresent;

    assert!(check.holds(&claims(), 0));
    assert!(!check.holds(&bare(), 0));
    let empty = Claims { subject: Some(String::new()), ..bare() };
    assert!(!check.holds(&empty, 0));
    assert_eq!(
        validate_claims(&empty, &vec![ValidationCheck::SubjectPresent], 0),
        Err(CheckKind::SubjectPresent)
    );
}

#[test]
fn a_token_expires_at_its_expiry() {
    let check = ValidationCheck::NotExpired;

    assert!(check.holds(&claims(), 0));
    assert!(check.holds(&claims(), 1_536_054_292));
    assert!(!check.holds(&claims(), 1_536_054_293));
    assert!(!check.holds(&claims(), 1_536_054_294));
    assert!(!check.holds(&claims(), u64::MAX));
}

#[test]
fn a_token_without_expiry_is_not_unexpired() {
    assert!(!ValidationCheck::NotExpired.holds(&bare(), 0));
    assert_eq!(
        validate_claims(&bare(), &vec![ValidationCheck::NotExpired], 0),
        Err(CheckKind::NotExpired)
    );
}

#[test]
fn issuer_has_to_match_exactly() {
    assert!(ValidationCheck::IssuerMatches("auth.test.aprila.no".to_owned()).holds(&claims(), 0));
    assert!(!ValidationCheck::IssuerMatches("auth.test.aprila.n".to_owned()).holds(&claims(), 0));
    assert!(!ValidationCheck::IssuerMatches("AUTH.TEST.APRILA.NO".to_owned()).holds(&claims(), 0));
    assert!(!ValidationCheck::IssuerMatches(String::new()).holds(&bare(), 0));
}

#[test]
fn audience_has_to_be_among_those_named() {
    assert!(ValidationCheck::AudienceMatches("api".to_owned()).holds(&claims(), 0));
    assert!(ValidationCheck::AudienceMatches("admin".to_owned()).holds(&claims(), 0));
    assert!(!ValidationCheck::AudienceMatches("other".to_owned()).holds(&claims(), 0));
    assert!(!ValidationCheck::AudienceMatches("api".to_owned()).holds(&bare(), 0));
}

#[test]
fn holds_text_looks_for_the_whole_text() {
    let list = vec!["a".to_owned(), "bc".to_owned()];

    assert!(holds_text(&list, &"bc".to_owned()));
    assert!(!holds_text(&list, &"b".to_owned()));
    assert!(!holds_text(&vec![], &"a".to_owned()));
}

#[test]
fn the_first_check_that_fails_is_named() {
    let policy = vec![
        ValidationCheck::SubjectPresent,
        ValidationCheck::IssuerMatches("someone else".to_owned()),
        ValidationCheck::NotExpired,
        ValidationCheck::AudienceMatches("nobody".to_owned()),
    ];

    assert_eq!(validate_claims(&claims(), &policy, 2_000_000_000), Err(CheckKind::IssuerMatches));

    let policy = vec![
        ValidationCheck::SubjectPresent,
        ValidationCheck::NotExpired,
        ValidationCheck::IssuerMatches("someone else".to_owned()),
    ];
    assert_eq!(validate_claims(&claims(), &policy, 2_000_000_000), Err(CheckKind::NotExpired));
    assert_eq!(validate_claims(&claims(), &policy, 1_000_000_000), Err(CheckKind::IssuerMatches));
}

#[test]
fn all_checks_together_pass_on_matching_claims() {
    let policy = vec![
        ValidationCheck::SubjectPresent,
        ValidationCheck::NotExpired,
        ValidationCheck::IssuerMatches("auth.test.aprila.no".to_owned()),
        ValidationCheck::AudienceMatches("admin".to_owned()),
    ];

    assert_eq!(validate_claims(&claims(), &policy, 1_536_050_693), Ok(()));
}

#[test]
fn the_order_of_the_checks_does_not_decide_the_outcome() {
    let forward = vec![
        ValidationCheck::SubjectPresent,
        ValidationCheck::NotExpired,
        ValidationCheck::AudienceMatches("api".to_owned()),
    ];
    let backward = vec![
        ValidationCheck::AudienceMatches("api".to_owned()),
        ValidationCheck::NotExpired,
        ValidationCheck::SubjectPresent,
    ];

    for now in [0, 1_536_054_292, 1_536_054_293] {
        assert_eq!(
            validate_claims(&claims(), &forward, now).is_ok(),
            validate_claims(&claims(), &backward, now).is_ok()
        );
    }
    assert_eq!(validate_claims(&bare(), &forward, 0), Err(CheckKind::SubjectPresent));
    assert_eq!(validate_claims(&bare(), &backward, 0), Err(CheckKind::AudienceMatches));
}

#[test]
fn kinds_name_the_checks() {
    assert_eq!(ValidationCheck::SubjectPresent.kind(), CheckKind::SubjectPresent);
    assert_eq!(ValidationCheck::NotExpired.kind(), CheckKind::NotExpired);
    assert_eq!(ValidationCheck::IssuerMatches("x".to_owned()).kind(), CheckKind::IssuerMatches);
    assert_eq!(ValidationCheck::AudienceMatches("x".to_owned()).kind(), CheckKind::AudienceMatches);
}
