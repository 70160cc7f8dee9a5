use vstd::prelude::*;

use crate::types::{AccountId, Balance, ContributionId};

verus! {

/// Emitted when a handle is bound to an account.
#[derive(Clone, Debug, PartialEq, Eq)]
pub struct IdentityRegistered {
    pub handle: String,
    pub account: AccountId,
}

/// Emitted when a `contribution` is approved.
#[derive(Clone, Copy, Debug, PartialEq, Eq)]
pub struct ContributionApproval {
    pub id: ContributionId,
    pub contributor: AccountId,
}

/// Emitted when a reward has been paid out and the contribution marked claimed.
#[derive(Clone, Copy, Debug, PartialEq, Eq)]
pub struct RewardClaimed {
    pub id: ContributionId,
    pub contributor: AccountId,
    pub reward: Balance,
}

/// A transfer that the host must perform before a claim can complete.
#[derive(Clone, Copy, Debug, PartialEq, Eq)]
pub struct Payout {
    pub to: AccountId,
    pub amount: Balance,
}

} // verus!
