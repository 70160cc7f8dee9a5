use vstd::prelude::*;

use crate::errors::OwnableError;
use crate::types::AccountId;

verus! {

/// The ownership gate: a single designated owner account.
pub struct Ownable {
    owner: AccountId,
}

impl View for Ownable {
    type V = AccountId;

    /// The current owner.
    closed spec fn view(&self) -> AccountId {
        self.owner
    }
}

impl Ownable {
    /// A gate owned by `owner`.
    pub fn new(owner: AccountId) -> (r: Ownable)
        ensures
            r@ == owner,
    {
        Ownable { owner }
    }

    /// The current owner.
    pub fn owner(&self) -> (r: AccountId)
        ensures
            r == self@,
    {
        self.owner
    }

    /// Whether `caller` is the owner.
    pub fn is_owner(&self, caller: AccountId) -> (r: bool)
        ensures
            r == (caller == self@),
    {
        caller == self.owner
    }

    /// Succeeds exactly when `caller` is the owner.
    pub fn only_owner(&self, caller: AccountId) -> (r: Result<(), OwnableError>)
        ensures
            r == (if caller == self@ {
                Ok(())
            } else {
                Err(OwnableError::CallerIsNotOwner)
            }),
    {
        if self.is_owner(caller) {
            Ok(())
        } else {
            Err(OwnableError::CallerIsNotOwner)
        }
    }

    /// Hands ownership to `new_owner`; only the owner may do so.
    pub fn transfer_ownership(&mut self, caller: AccountId, new_owner: AccountId) -> (r: Result<
        (),
        OwnableError,
    >)
        ensures
            caller == old(self)@ ==> r == Ok::<(), OwnableError>(()) && final(self)@ == new_owner,
            caller != old(self)@ ==> r == Err::<(), OwnableError>(OwnableError::CallerIsNotOwner)
                && final(self)@ == old(self)@,
    {
        match self.only_owner(caller) {
            Ok(()) => {
                self.owner = new_owner;
                Ok(())
            },
            Err(e) => Err(e),
        }
    }
}

} // verus!
