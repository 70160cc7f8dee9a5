use reward_ledger::demo::Demo;
use reward_ledger::errors::{DemoError, OwnableError};
use reward_ledger::events::ContributionApproval;
use reward_ledger::types::AccountId;

fn alice() -> AccountId {
    AccountId::from_bytes([1u8; 32])
}

fn bob() -> AccountId {
    AccountId::from_bytes([2u8; 32])
}

/// Creates a contract deployed by Alice.
fn create_contract() -> Demo {
    Demo::new(alice())
}

#[test]
fn new_works() {
    let contract = create_contract();
    assert_eq!(contract.get_contributor(1u64), None);
}

#[test]
fn approve_works() {
    let mut contract = create_contract();
    let contribution_id = 1u64;

    let event = contract.approve(alice(), contribution_id, bob());
    assert!(event.is_ok());

    // Exactly one `ContributionApproval`, for this id and contributor.
    let ContributionApproval { id, contributor } = event.unwrap();
    assert_eq!(id, contribution_id);
    assert_eq!(contributor, bob());

    let maybe_contributor = contract.get_contributor(contribution_id);
    assert_eq!(maybe_contributor, Some(bob()));

    // Approving it again returns an error.
    assert_eq!(
        contract.approve(alice(), contribution_id, alice()),
        Err(DemoError::ContributionAlreadyApproved)
    );
}

#[test]
fn only_contract_owner_can_approve() {
    let mut contract = create_contract();
    let contribution_id = 1u64;

    assert_eq!(
        contract.approve(bob(), contribution_id, alice()),
        Err(DemoError::OwnableError(OwnableError::CallerIsNotOwner))
    );
    assert_eq!(contract.get_contributor(contribution_id), None);
}

#[test]
fn already_approved_contribution_fails() {
    let mut contract = create_contract();
    let contribution_id = 1u64;

    let _ = contract.approve(alice(), contribution_id, alice());

    assert_eq!(
        contract.approve(alice(), contribution_id, alice()),
        Err(DemoError::ContributionAlreadyApproved)
    );
}

#[test]
fn contributor_getter_works() {
    let mut contract = create_contract();
    let contribution_id = 1u64;

    let _ = contract.approve(alice(), contribution_id, bob());

    assert_eq!(contract.get_contributor(contribution_id), Some(bob()));
    assert_eq!(contract.get_contributor(2u64), None);
}

#[test]
fn demo_error_from_ownable_error() {
    assert_eq!(
        DemoError::from(OwnableError::CallerIsNotOwner),
        DemoError::OwnableError(OwnableError::CallerIsNotOwner)
    );
}
