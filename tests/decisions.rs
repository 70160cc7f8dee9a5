use reward_ledger::decisions::{
    decide_approval, decide_attribution, decide_eligibility, decide_registration,
    decide_settlement,
};
use reward_ledger::errors::{OwnableError, WorkflowError};
use reward_ledger::types::{AccountId, Contribution};

fn owner() -> AccountId {
    AccountId::from_bytes([1u8; 32])
}

fn b() -> AccountId {
    AccountId::from_bytes([2u8; 32])
}

fn record(id: u64, claimed: bool) -> Option<Contribution> {
    Some(Contribution { id, contributor: b(), claimed })
}

#[test]
fn registration_decisions() {
    assert_eq!(decide_registration(None, b()), Ok(b()));
    assert_eq!(
        decide_registration(Some(b()), owner()),
        Err(WorkflowError::IdentityAlreadyRegistered)
    );
}

#[test]
fn approval_checks_gate_then_handle_then_record() {
    assert_eq!(
        decide_approval(owner(), b(), 1, None, record(1, false)),
        Err(WorkflowError::OwnableError(OwnableError::CallerIsNotOwner))
    );
    assert_eq!(
        decide_approval(owner(), owner(), 1, None, record(1, false)),
        Err(WorkflowError::UnknownContributor)
    );
    assert_eq!(
        decide_approval(owner(), owner(), 1, Some(b()), record(1, false)),
        Err(WorkflowError::ContributionAlreadyApproved)
    );
    assert_eq!(
        decide_approval(owner(), owner(), 1, Some(b()), record(1, true)),
        Err(WorkflowError::ContributionAlreadyClaimed)
    );
    assert_eq!(decide_approval(owner(), owner(), 1, Some(b()), None), Ok(record(1, false).unwrap()));
}

#[test]
fn eligibility_checks_in_order() {
    assert_eq!(decide_eligibility(None, b(), 1), Err(WorkflowError::NoContributionApprovedYet));
    assert_eq!(decide_eligibility(record(2, true), owner(), 1), Err(WorkflowError::UnknownContribution));
    assert_eq!(
        decide_eligibility(record(1, true), owner(), 1),
        Err(WorkflowError::CallerIsNotContributor)
    );
    assert_eq!(
        decide_eligibility(record(1, true), b(), 1),
        Err(WorkflowError::ContributionAlreadyClaimed)
    );
    assert_eq!(decide_eligibility(record(1, false), b(), 1), Ok(()));
}

#[test]
fn settlement_marks_claimed_only_when_paid() {
    assert_eq!(decide_settlement(record(1, false), b(), 1, true), Ok(record(1, true).unwrap()));
    assert_eq!(
        decide_settlement(record(1, false), b(), 1, false),
        Err(WorkflowError::PaymentFailed)
    );
    assert_eq!(
        decide_settlement(record(1, false), owner(), 1, true),
        Err(WorkflowError::CallerIsNotContributor)
    );
    assert_eq!(
        decide_settlement(record(1, true), b(), 1, true),
        Err(WorkflowError::ContributionAlreadyClaimed)
    );
}

#[test]
fn attribution_decisions() {
    assert_eq!(decide_attribution(record(1, true), b()), Ok(true));
    assert_eq!(decide_attribution(record(1, false), owner()), Ok(false));
    assert_eq!(decide_attribution(None, b()), Err(WorkflowError::NoContributionApprovedYet));
}
