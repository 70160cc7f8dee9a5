use std::collections::HashMap;

use vstd::prelude::*;

use crate::errors::{DemoError, OwnableError};
use crate::events::ContributionApproval;
use crate::ownable::Ownable;
use crate::types::{AccountId, ContributionId};

verus! {

broadcast use vstd::std_specs::hash::group_hash_axioms;

/// A minimal approval contract: the owner records, once per contribution, the
/// account that made it.
pub struct Demo {
    ownable: Ownable,
    contributions: HashMap<ContributionId, AccountId>,
}

impl Demo {
    /// The owner.
    pub closed spec fn spec_owner(&self) -> AccountId {
        self.ownable@
    }

    /// The approved contributions, from identifier to contributor.
    pub closed spec fn spec_contributions(&self) -> Map<ContributionId, AccountId> {
        self.contributions@
    }

    /// A contract owned by `caller`, its deployer, with nothing approved.
    pub fn new(caller: AccountId) -> (r: Demo)
        ensures
            r.spec_owner() == caller,
            r.spec_contributions() == Map::<ContributionId, AccountId>::empty(),
    {
        Demo { ownable: Ownable::new(caller), contributions: HashMap::new() }
    }

    /// The owner records `contributor` as the author of `contribution_id`; each
    /// identifier is approved at most once.
    pub fn approve(&mut self, caller: AccountId, contribution_id: ContributionId, contributor: AccountId) -> (r:
        Result<ContributionApproval, DemoError>)
        ensures
            final(self).spec_owner() == old(self).spec_owner(),
            caller != old(self).spec_owner() ==> r == Err::<ContributionApproval, DemoError>(
                DemoError::OwnableError(OwnableError::CallerIsNotOwner),
            ) && final(self).spec_contributions() == old(self).spec_contributions(),
            caller == old(self).spec_owner() && old(self).spec_contributions().contains_key(
                contribution_id,
            ) ==> r == Err::<ContributionApproval, DemoError>(DemoError::ContributionAlreadyApproved)
                && final(self).spec_contributions() == old(self).spec_contributions(),
            caller == old(self).spec_owner() && !old(self).spec_contributions().contains_key(
                contribution_id,
            ) ==> r == Ok::<ContributionApproval, DemoError>(
                ContributionApproval { id: contribution_id, contributor },
            ) && final(self).spec_contributions() == old(self).spec_contributions().insert(
                contribution_id,
                contributor,
            ),
    {
        if let Err(e) = self.ownable.only_owner(caller) {
            return Err(DemoError::from(e));
        }
        match self.contributions.get(&contribution_id) {
            Some(_) => Err(DemoError::ContributionAlreadyApproved),
            None => {
                self.contributions.insert(contribution_id, contributor);
                Ok(ContributionApproval { id: contribution_id, contributor })
            },
        }
    }

    /// The contributor approved for `contribution_id`, if any.
    pub fn get_contributor(&self, contribution_id: ContributionId) -> (r: Option<AccountId>)
        ensures
            r == (if self.spec_contributions().contains_key(contribution_id) {
                Some(self.spec_contributions()[contribution_id])
            } else {
                None
            }),
    {
        match self.contributions.get(&contribution_id) {
            Some(a) => Some(*a),
            None => None,
        }
    }
}

} // verus!
