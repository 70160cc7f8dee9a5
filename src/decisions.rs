//! The workflow's decisions, as functions of the values an operation looks up.
//!
//! Each takes what is stored for the keys involved and returns the new entry to
//! store, or the error; storing it is left to the caller, whatever holds the state.
use vstd::prelude::*;

use crate::errors::{OwnableError, WorkflowError};
use crate::types::{AccountId, Contribution, ContributionId};

verus! {

/// Binding a handle: allowed only while it is unbound (`existing` is what it is
/// bound to); the account to bind is the caller.
pub open spec fn registration(existing: Option<AccountId>, caller: AccountId) -> Result<
    AccountId,
    WorkflowError,
> {
    match existing {
        Some(_) => Err(WorkflowError::IdentityAlreadyRegistered),
        None => Ok(caller),
    }
}

/// Approving `id`: the record to create, given the owner, the account the handle
/// resolved to and the record already stored under `id`. The ownership gate
/// comes first, then the handle, then the existing record.
pub open spec fn approval(
    owner: AccountId,
    caller: AccountId,
    id: ContributionId,
    resolved: Option<AccountId>,
    existing: Option<Contribution>,
) -> Result<Contribution, WorkflowError> {
    if caller != owner {
        Err(WorkflowError::OwnableError(OwnableError::CallerIsNotOwner))
    } else {
        match resolved {
            None => Err(WorkflowError::UnknownContributor),
            Some(account) => match existing {
                Some(c) => if c.claimed {
                    Err(WorkflowError::ContributionAlreadyClaimed)
                } else {
                    Err(WorkflowError::ContributionAlreadyApproved)
                },
                None => Ok(Contribution { id, contributor: account, claimed: false }),
            },
        }
    }
}

/// Whether `caller` may claim `id`, given the record stored under `id`; the first
/// failing check decides.
pub open spec fn eligibility(record: Option<Contribution>, caller: AccountId, id: ContributionId) -> Result<
    (),
    WorkflowError,
> {
    match record {
        None => Err(WorkflowError::NoContributionApprovedYet),
        Some(c) => if c.id != id {
            Err(WorkflowError::UnknownContribution)
        } else if c.contributor != caller {
            Err(WorkflowError::CallerIsNotContributor)
        } else if c.claimed {
            Err(WorkflowError::ContributionAlreadyClaimed)
        } else {
            Ok(())
        },
    }
}

/// Completing a claim: the record marked claimed, if `caller` is eligible and the
/// transfer of the reward succeeded (`paid`).
pub open spec fn settlement(
    record: Option<Contribution>,
    caller: AccountId,
    id: ContributionId,
    paid: bool,
) -> Result<Contribution, WorkflowError> {
    match eligibility(record, caller, id) {
        Err(e) => Err(e),
        Ok(()) => if paid {
            Ok(Contribution { claimed: true, ..record.unwrap() })
        } else {
            Err(WorkflowError::PaymentFailed)
        },
    }
}

/// Whether `caller` is the contributor of `record`.
pub open spec fn attribution(record: Option<Contribution>, caller: AccountId) -> Result<
    bool,
    WorkflowError,
> {
    match record {
        Some(c) => Ok(c.contributor == caller),
        None => Err(WorkflowError::NoContributionApprovedYet),
    }
}

/// Decides a registration by `caller` of a handle currently bound to `existing`.
pub fn decide_registration(existing: Option<AccountId>, caller: AccountId) -> (r: Result<
    AccountId,
    WorkflowError,
>)
    ensures
        r == registration(existing, caller),
{
    match existing {
        Some(_) => Err(WorkflowError::IdentityAlreadyRegistered),
        None => Ok(caller),
    }
}

/// Decides an approval of `id` by `caller`.
pub fn decide_approval(
    owner: AccountId,
    caller: AccountId,
    id: ContributionId,
    resolved: Option<AccountId>,
    existing: Option<Contribution>,
) -> (r: Result<Contribution, WorkflowError>)
    ensures
        r == approval(owner, caller, id, resolved, existing),
{
    if caller != owner {
        return Err(WorkflowError::from(OwnableError::CallerIsNotOwner));
    }
    let account = match resolved {
        Some(a) => a,
        None => {
            return Err(WorkflowError::UnknownContributor);
        },
    };
    match existing {
        Some(c) => {
            if c.claimed {
                Err(WorkflowError::ContributionAlreadyClaimed)
            } else {
                Err(WorkflowError::ContributionAlreadyApproved)
            }
        },
        None => Ok(Contribution { id, contributor: account, claimed: false }),
    }
}

/// Decides whether `caller` may claim `id`.
pub fn decide_eligibility(record: Option<Contribution>, caller: AccountId, id: ContributionId) -> (r:
    Result<(), WorkflowError>)
    ensures
        r == eligibility(record, caller, id),
{
    match record {
        None => Err(WorkflowError::NoContributionApprovedYet),
        Some(c) => {
            if c.id != id {
                Err(WorkflowError::UnknownContribution)
            } else if c.contributor != caller {
                Err(WorkflowError::CallerIsNotContributor)
            } else if c.claimed {
                Err(WorkflowError::ContributionAlreadyClaimed)
            } else {
                Ok(())
            }
        },
    }
}

/// Decides the completion of a claim of `id` by `caller`, once the transfer was
/// attempted; `paid` says whether it succeeded.
pub fn decide_settlement(
    record: Option<Contribution>,
    caller: AccountId,
    id: ContributionId,
    paid: bool,
) -> (r: Result<Contribution, WorkflowError>)
    ensures
        r == settlement(record, caller, id, paid),
{
    match decide_eligibility(record, caller, id) {
        Err(e) => Err(e),
        Ok(()) => {
            if paid {
                let c = record.unwrap();
                Ok(Contribution { id: c.id, contributor: c.contributor, claimed: true })
            } else {
                Err(WorkflowError::PaymentFailed)
            }
        },
    }
}

/// Decides whether `caller` is the contributor of `record`.
pub fn decide_attribution(record: Option<Contribution>, caller: AccountId) -> (r: Result<
    bool,
    WorkflowError,
>)
    ensures
        r == attribution(record, caller),
{
    match record {
        Some(c) => Ok(c.contributor == caller),
        None => Err(WorkflowError::NoContributionApprovedYet),
    }
}

} // verus!
