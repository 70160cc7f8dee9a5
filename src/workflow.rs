use std::collections::HashMap;

use vstd::prelude::*;

use crate::decisions::{
    approval, attribution, decide_approval, decide_attribution, decide_eligibility,
    decide_registration, decide_settlement, eligibility, registration, settlement,
};
use crate::errors::{OwnableError, WorkflowError};
use crate::events::{ContributionApproval, IdentityRegistered, Payout, RewardClaimed};
use crate::ownable::Ownable;
use crate::registry::IdentityRegistry;
use crate::types::{AccountId, Balance, Contribution, ContributionId};

verus! {

broadcast use vstd::std_specs::hash::group_hash_axioms;

/// The abstract state of a ledger.
pub ghost struct LedgerState {
    /// The only account allowed to approve.
    pub owner: AccountId,
    /// Handle bindings, each made once and never changed.
    pub identities: Map<Seq<char>, AccountId>,
    /// Approved contributions by identifier.
    pub contributions: Map<ContributionId, Contribution>,
    /// The fixed reward paid for each claim.
    pub reward: Balance,
}

impl LedgerState {
    /// Every record carries the identifier it is stored under.
    pub open spec fn wf(self) -> bool {
        forall|k: ContributionId| #[trigger]
            self.contributions.contains_key(k) ==> self.contributions[k].id == k
    }

    /// The account bound to `handle`, if any.
    pub open spec fn bound(self, handle: Seq<char>) -> Option<AccountId> {
        if self.identities.contains_key(handle) {
            Some(self.identities[handle])
        } else {
            None
        }
    }

    /// The record stored under `id`, if any.
    pub open spec fn stored(self, id: ContributionId) -> Option<Contribution> {
        if self.contributions.contains_key(id) {
            Some(self.contributions[id])
        } else {
            None
        }
    }

    /// Outcome of registering `handle`.
    pub open spec fn register_result(self, handle: Seq<char>) -> Result<(), WorkflowError> {
        if self.identities.contains_key(handle) {
            Err(WorkflowError::IdentityAlreadyRegistered)
        } else {
            Ok(())
        }
    }

    /// State after `caller` registers `handle`.
    pub open spec fn registered(self, caller: AccountId, handle: Seq<char>) -> LedgerState {
        match registration(self.bound(handle), caller) {
            Ok(account) => LedgerState {
                identities: self.identities.insert(handle, account),
                ..self
            },
            Err(_) => self,
        }
    }

    /// Outcome of `caller` approving contribution `id` for `handle`.
    pub open spec fn approve_result(self, caller: AccountId, id: ContributionId, handle: Seq<char>) -> Result<
        (),
        WorkflowError,
    > {
        match approval(self.owner, caller, id, self.bound(handle), self.stored(id)) {
            Ok(_) => Ok(()),
            Err(e) => Err(e),
        }
    }

    /// State after `caller` approves contribution `id` for `handle`.
    pub open spec fn approved(self, caller: AccountId, id: ContributionId, handle: Seq<char>) -> LedgerState {
        match approval(self.owner, caller, id, self.bound(handle), self.stored(id)) {
            Ok(record) => LedgerState {
                contributions: self.contributions.insert(id, record),
                ..self
            },
            Err(_) => self,
        }
    }

    /// Whether `caller` may claim contribution `id`.
    pub open spec fn can_claim_result(self, caller: AccountId, id: ContributionId) -> Result<
        (),
        WorkflowError,
    > {
        eligibility(self.stored(id), caller, id)
    }

    /// Outcome of `caller` claiming `id`, given whether the transfer of the reward succeeded.
    pub open spec fn claim_result(self, caller: AccountId, id: ContributionId, paid: bool) -> Result<
        (),
        WorkflowError,
    > {
        match settlement(self.stored(id), caller, id, paid) {
            Ok(_) => Ok(()),
            Err(e) => Err(e),
        }
    }

    /// State after `caller` claims `id`, given whether the transfer succeeded.
    pub open spec fn claimed(self, caller: AccountId, id: ContributionId, paid: bool) -> LedgerState {
        match settlement(self.stored(id), caller, id, paid) {
            Ok(record) => LedgerState {
                contributions: self.contributions.insert(id, record),
                ..self
            },
            Err(_) => self,
        }
    }

    /// Outcome of `caller` handing ownership over.
    pub open spec fn transfer_ownership_result(self, caller: AccountId) -> Result<(), WorkflowError> {
        if caller == self.owner {
            Ok(())
        } else {
            Err(WorkflowError::OwnableError(OwnableError::CallerIsNotOwner))
        }
    }

    /// State after `caller` hands ownership to `new_owner`.
    pub open spec fn ownership_transferred(self, caller: AccountId, new_owner: AccountId) -> LedgerState {
        if caller == self.owner {
            LedgerState { owner: new_owner, ..self }
        } else {
            self
        }
    }

    /// Whether `caller` is the contributor of the record under `id`.
    pub open spec fn check_result(self, caller: AccountId, id: ContributionId) -> Result<
        bool,
        WorkflowError,
    > {
        attribution(self.stored(id), caller)
    }
}

/// The contribution workflow: identity registry, approvals and claims,
/// behind an ownership gate.
pub struct Workflow {
    ownable: Ownable,
    identities: IdentityRegistry,
    contributions: HashMap<ContributionId, Contribution>,
    reward: Balance,
}

impl View for Workflow {
    type V = LedgerState;

    closed spec fn view(&self) -> LedgerState {
        LedgerState {
            owner: self.ownable@,
            identities: self.identities@,
            contributions: self.contributions@,
            reward: self.reward,
        }
    }
}

impl Workflow {
    /// The registry is consistent and every record carries its own key.
    pub closed spec fn wf(&self) -> bool {
        self.identities.wf() && self@.wf()
    }

    /// A ledger owned by `owner` that pays `reward` per claim, with nothing registered
    /// or approved.
    pub fn new(owner: AccountId, reward: Balance) -> (r: Workflow)
        ensures
            r.wf(),
            r@.owner == owner,
            r@.reward == reward,
            r@.identities == Map::<Seq<char>, AccountId>::empty(),
            r@.contributions == Map::<ContributionId, Contribution>::empty(),
    {
        Workflow {
            ownable: Ownable::new(owner),
            identities: IdentityRegistry::new(),
            contributions: HashMap::new(),
            reward,
        }
    }

    /// The owner.
    pub fn owner(&self) -> (r: AccountId)
        ensures
            r == self@.owner,
    {
        self.ownable.owner()
    }

    /// The fixed reward amount.
    pub fn reward(&self) -> (r: Balance)
        ensures
            r == self@.reward,
    {
        self.reward
    }

    /// The account bound to `handle`, if any.
    pub fn resolve(&self, handle: &String) -> (r: Option<AccountId>)
        requires
            self.wf(),
        ensures
            r == self@.bound(handle@),
    {
        self.identities.resolve(handle)
    }

    /// Binds `identity` to `caller`; fails if the handle is already bound, whoever asks.
    pub fn register_identity(&mut self, caller: AccountId, identity: String) -> (r: Result<
        IdentityRegistered,
        WorkflowError,
    >)
        requires
            old(self).wf(),
        ensures
            final(self).wf(),
            final(self)@ == old(self)@.registered(caller, identity@),
            match r {
                Ok(ev) => old(self)@.register_result(identity@) is Ok && ev.handle@ == identity@
                    && ev.account == caller,
                Err(e) => old(self)@.register_result(identity@) == Err::<(), WorkflowError>(e),
            },
    {
        let account = match decide_registration(self.identities.resolve(&identity), caller) {
            Ok(a) => a,
            Err(e) => {
                return Err(e);
            },
        };
        let handle = identity.clone();
        self.identities.bind(identity, account);
        assert(self@.contributions == old(self)@.contributions);
        Ok(IdentityRegistered { handle, account })
    }

    /// The owner approves contribution `contribution_id` for the account bound to
    /// `contributor_id`; each identifier is approved at most once.
    pub fn approve(
        &mut self,
        caller: AccountId,
        contribution_id: ContributionId,
        contributor_id: String,
    ) -> (r: Result<ContributionApproval, WorkflowError>)
        requires
            old(self).wf(),
        ensures
            final(self).wf(),
            final(self)@ == old(self)@.approved(caller, contribution_id, contributor_id@),
            match r {
                Ok(ev) => old(self)@.approve_result(caller, contribution_id, contributor_id@) is Ok
                    && ev.id == contribution_id && ev.contributor
                    == old(self)@.identities[contributor_id@],
                Err(e) => old(self)@.approve_result(caller, contribution_id, contributor_id@)
                    == Err::<(), WorkflowError>(e),
            },
    {
        let record = decide_approval(
            self.ownable.owner(),
            caller,
            contribution_id,
            self.identities.resolve(&contributor_id),
            self.get_contribution(contribution_id),
        );
        match record {
            Ok(c) => {
                self.contributions.insert(contribution_id, c);
                Ok(ContributionApproval { id: contribution_id, contributor: c.contributor })
            },
            Err(e) => Err(e),
        }
    }

    /// Whether `caller` may claim contribution `contribution_id` now.
    pub fn can_claim(&self, caller: AccountId, contribution_id: ContributionId) -> (r: Result<
        (),
        WorkflowError,
    >)
        ensures
            r == self@.can_claim_result(caller, contribution_id),
    {
        decide_eligibility(self.get_contribution(contribution_id), caller, contribution_id)
    }

    /// The transfer that a claim of `contribution_id` by `caller` needs: the reward,
    /// to the caller. Fails as `can_claim` does.
    pub fn claim_payout(&self, caller: AccountId, contribution_id: ContributionId) -> (r: Result<
        Payout,
        WorkflowError,
    >)
        ensures
            match r {
                Ok(p) => self@.can_claim_result(caller, contribution_id) is Ok && p.to == caller
                    && p.to == self@.contributions[contribution_id].contributor && p.amount
                    == self@.reward,
                Err(e) => self@.can_claim_result(caller, contribution_id) == Err::<(), WorkflowError>(
                    e,
                ),
            },
    {
        match self.can_claim(caller, contribution_id) {
            Ok(()) => Ok(Payout { to: caller, amount: self.reward }),
            Err(e) => Err(e),
        }
    }

    /// Completes a claim of `contribution_id` by `caller`, once the host has attempted
    /// the transfer of `claim_payout` and reported in `paid` whether it succeeded.
    /// Eligibility is checked again; the record is marked claimed only if it holds
    /// and the transfer succeeded, and is left unchanged otherwise.
    pub fn claim(&mut self, caller: AccountId, contribution_id: ContributionId, paid: bool) -> (r:
        Result<RewardClaimed, WorkflowError>)
        requires
            old(self).wf(),
        ensures
            final(self).wf(),
            final(self)@ == old(self)@.claimed(caller, contribution_id, paid),
            match r {
                Ok(ev) => old(self)@.claim_result(caller, contribution_id, paid) is Ok && ev.id
                    == contribution_id && ev.contributor == caller && ev.reward == old(self)@.reward,
                Err(e) => old(self)@.claim_result(caller, contribution_id, paid) == Err::<
                    (),
                    WorkflowError,
                >(e),
            },
    {
        match decide_settlement(self.get_contribution(contribution_id), caller, contribution_id, paid) {
            Ok(c) => {
                self.contributions.insert(contribution_id, c);
                Ok(RewardClaimed { id: contribution_id, contributor: c.contributor, reward: self.reward })
            },
            Err(e) => Err(e),
        }
    }

    /// Whether `caller` is the contributor of the record under `contribution_id`.
    pub fn check(&self, caller: AccountId, contribution_id: ContributionId) -> (r: Result<
        bool,
        WorkflowError,
    >)
        ensures
            r == self@.check_result(caller, contribution_id),
    {
        decide_attribution(self.get_contribution(contribution_id), caller)
    }

    /// Hands ownership to `new_owner`; only the owner may do so.
    pub fn transfer_ownership(&mut self, caller: AccountId, new_owner: AccountId) -> (r: Result<
        (),
        WorkflowError,
    >)
        requires
            old(self).wf(),
        ensures
            final(self).wf(),
            r == old(self)@.transfer_ownership_result(caller),
            final(self)@ == old(self)@.ownership_transferred(caller, new_owner),
    {
        let r = self.ownable.transfer_ownership(caller, new_owner);
        assert(self@.contributions == old(self)@.contributions);
        match r {
            Ok(()) => Ok(()),
            Err(e) => Err(WorkflowError::from(e)),
        }
    }

    /// The record stored under `id`, if any.
    pub fn get_contribution(&self, id: ContributionId) -> (r: Option<Contribution>)
        ensures
            r == self@.stored(id),
    {
        match self.contributions.get(&id) {
            Some(c) => Some(*c),
            None => None,
        }
    }
}

} // verus!
