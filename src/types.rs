use vstd::prelude::*;

verus! {

/// Identifier of a contribution (for instance an issue number).
pub type ContributionId = u64;

/// Amount of value moved by a transfer.
pub type Balance = u128;

/// An opaque 32-byte account identifier, unique per participant.
#[derive(Clone, Copy, Debug, Eq)]
pub struct AccountId {
    pub bytes: [u8; 32],
}

impl AccountId {
    /// The account with these bytes.
    pub fn from_bytes(bytes: [u8; 32]) -> (r: AccountId)
        ensures
            r.bytes == bytes,
    {
        AccountId { bytes }
    }
}

impl PartialEq for AccountId {
    fn eq(&self, o: &AccountId) -> (r: bool)
        ensures
            r == (self.bytes == o.bytes),
    {
        broadcast use vstd::array::group_array_axioms;

        let mut i: usize = 0;
        while i < 32
            invariant
                0 <= i <= 32,
                forall|j: int| 0 <= j < i ==> self.bytes[j] == o.bytes[j],
            decreases 32 - i,
        {
            if self.bytes[i] != o.bytes[i] {
                return false;
            }
            i = i + 1;
        }
        assert(self.bytes =~= o.bytes);
        true
    }
}

impl vstd::std_specs::cmp::PartialEqSpecImpl for AccountId {
    open spec fn obeys_eq_spec() -> bool {
        true
    }

    open spec fn eq_spec(&self, o: &AccountId) -> bool {
        self.bytes == o.bytes
    }
}

/// An approved contribution.
///
/// `id` always equals the key under which the record is stored, and
/// `contributor` is the only account allowed to claim its reward.
#[derive(Clone, Copy, Debug, PartialEq, Eq)]
pub struct Contribution {
    /// The unique contribution identifier.
    pub id: ContributionId,
    /// The account entitled to the reward.
    pub contributor: AccountId,
    /// Whether the reward has been paid out.
    pub claimed: bool,
}

} // verus!
