//! Properties of the ledger that hold across operations.
use vstd::prelude::*;

use crate::errors::WorkflowError;
use crate::types::{AccountId, ContributionId};
use crate::workflow::LedgerState;

verus! {

/// A state-changing operation on a ledger, with its caller.
pub ghost enum Operation {
    Register { caller: AccountId, handle: Seq<char> },
    Approve { caller: AccountId, id: ContributionId, handle: Seq<char> },
    Claim { caller: AccountId, id: ContributionId, paid: bool },
    TransferOwnership { caller: AccountId, new_owner: AccountId },
}

impl LedgerState {
    /// State after one operation, as the `Workflow` methods produce it.
    pub open spec fn step(self, op: Operation) -> LedgerState {
        match op {
            Operation::Register { caller, handle } => self.registered(caller, handle),
            Operation::Approve { caller, id, handle } => self.approved(caller, id, handle),
            Operation::Claim { caller, id, paid } => self.claimed(caller, id, paid),
            Operation::TransferOwnership { caller, new_owner } => self.ownership_transferred(
                caller,
                new_owner,
            ),
        }
    }

    /// State after the operations `ops`, in order.
    pub open spec fn run(self, ops: Seq<Operation>) -> LedgerState
        decreases ops.len(),
    {
        if ops.len() == 0 {
            self
        } else {
            self.step(ops[0]).run(ops.drop_first())
        }
    }

    /// `later` keeps every binding and every record of `self`: contributors and
    /// identifiers unchanged, and a claimed record still claimed.
    pub open spec fn kept_in(self, later: LedgerState) -> bool {
        &&& forall|h: Seq<char>| #[trigger]
            self.identities.contains_key(h) ==> later.identities.contains_key(h)
                && later.identities[h] == self.identities[h]
        &&& forall|k: ContributionId| #[trigger]
            self.contributions.contains_key(k) ==> {
                &&& later.contributions.contains_key(k)
                &&& later.contributions[k].id == self.contributions[k].id
                &&& later.contributions[k].contributor == self.contributions[k].contributor
                &&& self.contributions[k].claimed ==> later.contributions[k].claimed
            }
    }
}

/// No operation removes a binding or a record, changes a record's contributor or
/// identifier, or unclaims it; every operation keeps records under their own key.
pub proof fn lemma_step_keeps(s: LedgerState, op: Operation)
    requires
        s.wf(),
    ensures
        s.step(op).wf(),
        s.kept_in(s.step(op)),
{
}

/// Bindings and records accumulate monotonically over any run of operations.
pub proof fn lemma_run_keeps(s: LedgerState, ops: Seq<Operation>)
    requires
        s.wf(),
    ensures
        s.run(ops).wf(),
        s.kept_in(s.run(ops)),
    decreases ops.len(),
{
    if ops.len() > 0 {
        let t = s.step(ops[0]);
        lemma_step_keeps(s, ops[0]);
        lemma_run_keeps(t, ops.drop_first());
    }
}

/// Once `handle` has been registered (by `first`), registering it again fails with
/// `IdentityAlreadyRegistered`, whoever asks and whatever happened in between.
pub proof fn lemma_register_twice_fails(
    s: LedgerState,
    first: AccountId,
    handle: Seq<char>,
    between: Seq<Operation>,
)
    requires
        s.wf(),
    ensures
        s.registered(first, handle).run(between).register_result(handle) == Err::<(), WorkflowError>(
            WorkflowError::IdentityAlreadyRegistered,
        ),
{
    let t = s.registered(first, handle);
    lemma_run_keeps(t, between);
    assert(t.identities.contains_key(handle));
}

/// After contribution `id` has been approved, no later approval of `id` succeeds or
/// changes the state, whatever handle it names; from the owner with a registered
/// handle it fails with `ContributionAlreadyClaimed` or `ContributionAlreadyApproved`.
pub proof fn lemma_single_approval(
    s: LedgerState,
    owner: AccountId,
    id: ContributionId,
    handle: Seq<char>,
    between: Seq<Operation>,
    caller: AccountId,
    other: Seq<char>,
)
    requires
        s.wf(),
        s.approve_result(owner, id, handle) is Ok,
    ensures
        ({
            let t = s.approved(owner, id, handle).run(between);
            &&& t.approve_result(caller, id, other) is Err
            &&& t.approved(caller, id, other) == t
            &&& caller == t.owner && t.identities.contains_key(other) ==> t.approve_result(
                caller,
                id,
                other,
            ) == Err::<(), WorkflowError>(
                if t.contributions[id].claimed {
                    WorkflowError::ContributionAlreadyClaimed
                } else {
                    WorkflowError::ContributionAlreadyApproved
                },
            )
        }),
{
    let a = s.approved(owner, id, handle);
    assert(a.contributions.contains_key(id));
    lemma_run_keeps(a, between);
}

/// `approve` from anyone but the owner fails with `CallerIsNotOwner` and leaves the
/// state as it was.
pub proof fn lemma_ownership_gate(
    s: LedgerState,
    caller: AccountId,
    id: ContributionId,
    handle: Seq<char>,
)
    requires
        caller != s.owner,
    ensures
        s.approve_result(caller, id, handle) == Err::<(), WorkflowError>(
            WorkflowError::OwnableError(crate::errors::OwnableError::CallerIsNotOwner),
        ),
        s.approved(caller, id, handle) == s,
{
}

/// An approved contribution names the account its handle resolved to, and only
/// that account passes `can_claim` or `claim`; anyone else gets
/// `CallerIsNotContributor` and changes nothing.
pub proof fn lemma_claim_exclusivity(
    s: LedgerState,
    id: ContributionId,
    caller: AccountId,
    paid: bool,
)
    requires
        s.wf(),
        s.contributions.contains_key(id),
        caller != s.contributions[id].contributor,
    ensures
        s.can_claim_result(caller, id) == Err::<(), WorkflowError>(
            WorkflowError::CallerIsNotContributor,
        ),
        s.claim_result(caller, id, paid) == Err::<(), WorkflowError>(
            WorkflowError::CallerIsNotContributor,
        ),
        s.claimed(caller, id, paid) == s,
{
}

/// Approval stores the account that the handle resolved to.
pub proof fn lemma_approval_resolves(
    s: LedgerState,
    owner: AccountId,
    id: ContributionId,
    handle: Seq<char>,
)
    requires
        s.approve_result(owner, id, handle) is Ok,
    ensures
        s.approved(owner, id, handle).contributions[id].contributor == s.identities[handle],
        !s.approved(owner, id, handle).contributions[id].claimed,
{
}

/// After a successful claim of `id`, every later `can_claim` or `claim` of `id`
/// fails and changes nothing, whatever happened in between; for the contributor
/// the error is `ContributionAlreadyClaimed`.
pub proof fn lemma_claim_at_most_once(
    s: LedgerState,
    claimant: AccountId,
    id: ContributionId,
    paid: bool,
    between: Seq<Operation>,
    caller: AccountId,
    paid_again: bool,
)
    requires
        s.wf(),
        s.claim_result(claimant, id, paid) is Ok,
    ensures
        ({
            let t = s.claimed(claimant, id, paid).run(between);
            &&& t.can_claim_result(caller, id) is Err
            &&& t.claim_result(caller, id, paid_again) is Err
            &&& t.claimed(caller, id, paid_again) == t
            &&& caller == claimant ==> t.can_claim_result(caller, id) == Err::<(), WorkflowError>(
                WorkflowError::ContributionAlreadyClaimed,
            ) && t.claim_result(caller, id, paid_again) == Err::<(), WorkflowError>(
                WorkflowError::ContributionAlreadyClaimed,
            )
        }),
{
    let c = s.claimed(claimant, id, paid);
    assert(c.contributions.contains_key(id) && c.contributions[id].claimed);
    assert(c.wf());
    lemma_run_keeps(c, between);
}

/// A claim whose transfer fails returns `PaymentFailed` and leaves the state as it
/// was: the record stays approved and unclaimed, and a later claim whose transfer
/// succeeds still goes through.
pub proof fn lemma_failed_transfer_keeps_claim(s: LedgerState, caller: AccountId, id: ContributionId)
    requires
        s.can_claim_result(caller, id) is Ok,
    ensures
        s.claim_result(caller, id, false) == Err::<(), WorkflowError>(WorkflowError::PaymentFailed),
        s.claimed(caller, id, false) == s,
        !s.contributions[id].claimed,
        s.claimed(caller, id, false).claim_result(caller, id, true) is Ok,
{
}

} // verus!
