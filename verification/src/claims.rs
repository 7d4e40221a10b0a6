//! The claims a token carries and the checks a caller can ask for.
//!
//! A caller hands over an ordered list of checks. Every check is judged on
//! its own against the claims and one reading of the clock; the list passes
//! when all of them hold, and otherwise the first one that does not is named.

use vstd::prelude::*;
use crate::error::CheckKind;

verus! {

/// The registered claims that the checks read.
#[derive(Debug, PartialEq, Eq)]
pub struct Claims {
    /// `sub`: whom the token speaks of.
    pub subject: Option<String>,
    /// `exp`: the second, counted from the Unix epoch, at which the token
    /// stops being valid.
    pub expiry: Option<u64>,
    /// `iss`: who issued the token.
    pub issuer: Option<String>,
    /// `aud`: whom the token is meant for. A token that names one audience
    /// has one entry here, a token that names none has no entry.
    pub audience: Vec<String>,
}

/// [`Claims`] as mathematical values.
pub ghost struct ClaimsView {
    pub subject: Option<Seq<char>>,
    pub expiry: Option<u64>,
    pub issuer: Option<Seq<char>>,
    pub audience: Seq<Seq<char>>,
}

/// The texts of a list of strings.
pub open spec fn texts(list: Seq<String>) -> Seq<Seq<char>> {
    list.map_values(|s: String| s@)
}

/// The text of an optional string.
pub open spec fn text_view(text: Option<String>) -> Option<Seq<char>> {
    match text {
        Some(s) => Some(s@),
        None => None,
    }
}

impl View for Claims {
    type V = ClaimsView;

    open spec fn view(&self) -> ClaimsView {
        ClaimsView {
            subject: text_view(self.subject),
            expiry: self.expiry,
            issuer: text_view(self.issuer),
            audience: texts(self.audience@),
        }
    }
}

/// One check on the claims of a token.
#[derive(Debug, PartialEq, Eq)]
pub enum ValidationCheck {
    /// The token names a subject, and the name is not empty.
    SubjectPresent,
    /// The token carries an expiry that has not been reached.
    NotExpired,
    /// The token was issued by the given issuer.
    IssuerMatches(String),
    /// The token is meant for the given audience.
    AudienceMatches(String),
}

/// [`ValidationCheck`] as a mathematical value.
pub ghost enum CheckView {
    SubjectPresent,
    NotExpired,
    IssuerMatches(Seq<char>),
    AudienceMatches(Seq<char>),
}

impl CheckView {
    /// The check without its argument.
    pub open spec fn kind(self) -> CheckKind {
        match self {
            CheckView::SubjectPresent => CheckKind::SubjectPresent,
            CheckView::NotExpired => CheckKind::NotExpired,
            CheckView::IssuerMatches(_) => CheckKind::IssuerMatches,
            CheckView::AudienceMatches(_) => CheckKind::AudienceMatches,
        }
    }

    /// Whether the check holds of `claims` when the clock reads `now`.
    ///
    /// A check on a claim that the token does not carry fails: a token
    /// without an expiry is not "not expired".
    pub open spec fn holds(self, claims: ClaimsView, now: u64) -> bool {
        match self {
            CheckView::SubjectPresent => claims.subject matches Some(subject) && subject.len() > 0,
            CheckView::NotExpired => claims.expiry matches Some(expiry) && now < expiry,
            CheckView::IssuerMatches(issuer) => claims.issuer == Some(issuer),
            CheckView::AudienceMatches(audience) => claims.audience.contains(audience),
        }
    }
}

impl View for ValidationCheck {
    type V = CheckView;

    open spec fn view(&self) -> CheckView {
        match *self {
            ValidationCheck::SubjectPresent => CheckView::SubjectPresent,
            ValidationCheck::NotExpired => CheckView::NotExpired,
            ValidationCheck::IssuerMatches(issuer) => CheckView::IssuerMatches(issuer@),
            ValidationCheck::AudienceMatches(audience) => CheckView::AudienceMatches(audience@),
        }
    }
}

/// The checks of a policy as mathematical values, in the policy's order.
pub open spec fn policy_view(policy: Seq<ValidationCheck>) -> Seq<CheckView> {
    policy.map_values(|check: ValidationCheck| check@)
}

/// Every check of the policy holds.
pub open spec fn all_hold(policy: Seq<CheckView>, claims: ClaimsView, now: u64) -> bool {
    forall|i: int| 0 <= i < policy.len() ==> (#[trigger] policy[i]).holds(claims, now)
}

/// `at` is the place of the first check of the policy that does not hold.
pub open spec fn fails_first_at(
    policy: Seq<CheckView>,
    claims: ClaimsView,
    now: u64,
    at: int,
) -> bool {
    &&& 0 <= at < policy.len()
    &&& !policy[at].holds(claims, now)
    &&& all_hold(policy.take(at), claims, now)
}

/// The place of the first check that does not hold, if there is one.
pub open spec fn first_failure(policy: Seq<CheckView>, claims: ClaimsView, now: u64) -> Option<int>
    decreases policy.len(),
{
    if policy.len() == 0 {
        None
    } else {
        match first_failure(policy.drop_last(), claims, now) {
            Some(at) => Some(at),
            None => if policy.last().holds(claims, now) {
                None
            } else {
                Some(policy.len() - 1)
            },
        }
    }
}

/// What the validator answers: nothing to report, or the kind of the first
/// check that does not hold.
pub open spec fn judge(policy: Seq<CheckView>, claims: ClaimsView, now: u64) -> Result<
    (),
    CheckKind,
> {
    match first_failure(policy, claims, now) {
        None => Ok(()),
        Some(at) => Err(policy[at].kind()),
    }
}

/// [`first_failure`] finds nothing exactly when every check holds, and
/// what it finds is the first check that does not.
pub proof fn lemma_first_failure(policy: Seq<CheckView>, claims: ClaimsView, now: u64)
    ensures
        first_failure(policy, claims, now) is None <==> all_hold(policy, claims, now),
        first_failure(policy, claims, now) matches Some(at) ==> fails_first_at(
            policy,
            claims,
            now,
            at,
        ),
    decreases policy.len(),
{
    if policy.len() > 0 {
        let shorter = policy.drop_last();
        lemma_first_failure(shorter, claims, now);
        assert forall|i: int| 0 <= i < shorter.len() implies shorter[i] == policy[i] by {}
        match first_failure(shorter, claims, now) {
            Some(at) => {
                assert(policy.take(at) =~= shorter.take(at));
                assert(policy[at] == shorter[at]);
            },
            None => {
                if policy.last().holds(claims, now) {
                    assert forall|i: int| 0 <= i < policy.len() implies (#[trigger] policy[i]).holds(
                        claims,
                        now,
                    ) by {
                        if i < shorter.len() {
                            assert(shorter[i].holds(claims, now));
                        }
                    }
                } else {
                    assert(policy.take(policy.len() - 1) =~= shorter);
                }
            },
        }
        if all_hold(policy, claims, now) {
            assert forall|i: int| 0 <= i < shorter.len() implies (#[trigger] shorter[i]).holds(
                claims,
                now,
            ) by {
                assert(policy[i].holds(claims, now));
            }
        }
    }
}

/// A failure found in the first part of a policy is the failure of the
/// whole policy.
pub proof fn lemma_failure_is_settled(
    policy: Seq<CheckView>,
    claims: ClaimsView,
    now: u64,
    read: int,
)
    requires
        0 <= read <= policy.len(),
        first_failure(policy.take(read), claims, now) is Some,
    ensures
        first_failure(policy, claims, now) == first_failure(policy.take(read), claims, now),
    decreases policy.len() - read,
{
    if read < policy.len() {
        assert(policy.take(read + 1).drop_last() =~= policy.take(read));
        lemma_failure_is_settled(policy, claims, now, read + 1);
    } else {
        assert(policy.take(read) =~= policy);
    }
}

/// The order of the checks does not decide whether a policy passes: two
/// policies that hold the same checks, each as often as the other, pass on
/// the same claims.
pub proof fn lemma_order_does_not_matter(
    first: Seq<CheckView>,
    second: Seq<CheckView>,
    claims: ClaimsView,
    now: u64,
)
    requires
        first.to_multiset() == second.to_multiset(),
    ensures
        judge(first, claims, now) is Ok <==> judge(second, claims, now) is Ok,
{
    lemma_first_failure(first, claims, now);
    lemma_first_failure(second, claims, now);
    if all_hold(first, claims, now) {
        lemma_same_checks_pass_alike(first, second, claims, now);
    }
    if all_hold(second, claims, now) {
        lemma_same_checks_pass_alike(second, first, claims, now);
    }
}

proof fn lemma_same_checks_pass_alike(
    first: Seq<CheckView>,
    second: Seq<CheckView>,
    claims: ClaimsView,
    now: u64,
)
    requires
        first.to_multiset() == second.to_multiset(),
        all_hold(first, claims, now),
    ensures
        all_hold(second, claims, now),
{
    assert forall|i: int| 0 <= i < second.len() implies (#[trigger] second[i]).holds(
        claims,
        now,
    ) by {
        let check = second[i];
        assert(second.contains(check));
        vstd::seq_lib::to_multiset_contains(second, check);
        vstd::seq_lib::to_multiset_contains(first, check);
        assert(first.contains(check));
        let j = choose|j: int| 0 <= j < first.len() && first[j] == check;
        assert(first[j].holds(claims, now));
    }
}

impl ValidationCheck {
    /// The check without its argument.
    pub fn kind(&self) -> (kind: CheckKind)
        ensures
            kind == self@.kind(),
    {
        match self {
            ValidationCheck::SubjectPresent => CheckKind::SubjectPresent,
            ValidationCheck::NotExpired => CheckKind::NotExpired,
            ValidationCheck::IssuerMatches(_) => CheckKind::IssuerMatches,
            ValidationCheck::AudienceMatches(_) => CheckKind::AudienceMatches,
        }
    }

    /// Judges this one check against `claims`, with the clock at `now`.
    pub fn holds(&self, claims: &Claims, now: u64) -> (ok: bool)
        ensures
            ok == self@.holds(claims@, now),
    {
        match self {
            ValidationCheck::SubjectPresent => match &claims.subject {
                Some(subject) => !subject.as_str().is_empty(),
                None => false,
            },
            ValidationCheck::NotExpired => match claims.expiry {
                Some(expiry) => now < expiry,
                None => false,
            },
            ValidationCheck::IssuerMatches(wanted) => match &claims.issuer {
                Some(issuer) => *issuer == *wanted,
                None => false,
            },
            ValidationCheck::AudienceMatches(wanted) => holds_text(&claims.audience, wanted),
        }
    }
}

/// Whether `wanted` is one of the texts in `list`.
pub fn holds_text(list: &Vec<String>, wanted: &String) -> (found: bool)
    ensures
        found == texts(list@).contains(wanted@),
{
    let mut i: usize = 0;
    while i < list.len()
        invariant
            i <= list.len(),
            forall|j: int| 0 <= j < i ==> texts(list@)[j] != wanted@,
        decreases list.len() - i,
    {
        if list[i] == *wanted {
            assert(texts(list@)[i as int] == wanted@);
            return true;
        }
        i += 1;
    }
    false
}

/// Holds the claims against every check of the policy, in the policy's
/// order, and stops at the first check that does not hold.
pub fn validate_claims(claims: &Claims, policy: &Vec<ValidationCheck>, now: u64) -> (r: Result<
    (),
    CheckKind,
>)
    ensures
        r == judge(policy_view(policy@), claims@, now),
        r is Ok <==> all_hold(policy_view(policy@), claims@, now),
        r matches Err(kind) ==> exists|at: int|
            fails_first_at(policy_view(policy@), claims@, now, at) && kind == #[trigger] policy_view(
                policy@,
            )[at].kind(),
{
    let ghost checks = policy_view(policy@);
    let mut i: usize = 0;
    while i < policy.len()
        invariant
            i <= policy.len(),
            checks == policy_view(policy@),
            first_failure(checks.take(i as int), claims@, now) is None,
        decreases policy.len() - i,
    {
        proof {
            assert(checks.take(i + 1).drop_last() =~= checks.take(i as int));
            assert(checks.take(i + 1).last() == policy[i as int]@);
        }
        if !policy[i].holds(claims, now) {
            proof {
                lemma_failure_is_settled(checks, claims@, now, i + 1);
                lemma_first_failure(checks, claims@, now);
                assert(fails_first_at(checks, claims@, now, i as int));
            }
            return Err(policy[i].kind());
        }
        i += 1;
    }
    proof {
        assert(checks.take(i as int) =~= checks);
        lemma_first_failure(checks, claims@, now);
    }
    Ok(())
}

} // verus!
