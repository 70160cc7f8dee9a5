use vstd::prelude::*;

verus! {

/// Failures of the ownership gate.
#[derive(Clone, Copy, Debug, PartialEq, Eq, Structural)]
pub enum OwnableError {
    /// The caller is not the owner.
    CallerIsNotOwner,
}

/// Errors of the single-purpose approval contract.
#[derive(Clone, Copy, Debug, PartialEq, Eq, Structural)]
pub enum DemoError {
    OwnableError(OwnableError),
    /// A `contribution` is already approved.
    ContributionAlreadyApproved,
}

impl From<OwnableError> for DemoError {
    fn from(error: OwnableError) -> (r: DemoError)
        ensures
            r == DemoError::OwnableError(error),
    {
        DemoError::OwnableError(error)
    }
}

impl vstd::std_specs::convert::FromSpecImpl<OwnableError> for DemoError {
    open spec fn obeys_from_spec() -> bool {
        true
    }

    open spec fn from_spec(v: OwnableError) -> DemoError {
        DemoError::OwnableError(v)
    }
}

/// Errors of the contribution workflow.
#[derive(Clone, Copy, Debug, PartialEq, Eq, Structural)]
pub enum WorkflowError {
    OwnableError(OwnableError),
    /// An aspiring contributor identity is already registered.
    IdentityAlreadyRegistered,
    /// A `contribution` is already approved.
    ContributionAlreadyApproved,
    /// No `contribution` is approved yet under this identifier.
    NoContributionApprovedYet,
    /// Contributor identity is not registered.
    UnknownContributor,
    /// The stored record does not carry the identifier it is stored under.
    UnknownContribution,
    /// Attempted reward payment to a contributor failed.
    PaymentFailed,
    /// The caller is not the `contributor` while required to be.
    CallerIsNotContributor,
    /// The reward was already claimed.
    ContributionAlreadyClaimed,
}

impl From<OwnableError> for WorkflowError {
    fn from(error: OwnableError) -> (r: WorkflowError)
        ensures
            r == WorkflowError::OwnableError(error),
    {
        WorkflowError::OwnableError(error)
    }
}

impl vstd::std_specs::convert::FromSpecImpl<OwnableError> for WorkflowError {
    open spec fn obeys_from_spec() -> bool {
        true
    }

    open spec fn from_spec(v: OwnableError) -> WorkflowError {
        WorkflowError::OwnableError(v)
    }
}

} // verus!
