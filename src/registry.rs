use vstd::prelude::*;

use crate::types::AccountId;

verus! {

/// Binds contributor handles to accounts; each handle at most once, for good.
pub struct IdentityRegistry {
    handles: Vec<String>,
    accounts: Vec<AccountId>,
    bindings: Ghost<Map<Seq<char>, AccountId>>,
}

impl View for IdentityRegistry {
    type V = Map<Seq<char>, AccountId>;

    /// The bindings made so far, from handle to account.
    closed spec fn view(&self) -> Map<Seq<char>, AccountId> {
        self.bindings@
    }
}

impl IdentityRegistry {
    /// The stored handles and accounts describe exactly the bindings.
    pub closed spec fn wf(&self) -> bool {
        &&& self.handles.len() == self.accounts.len()
        &&& forall|i: int|
            0 <= i < self.handles.len() ==> #[trigger] self.bindings@.contains_key(
                self.handles[i]@,
            ) && self.bindings@[self.handles[i]@] == self.accounts[i]
        &&& forall|h: Seq<char>| #[trigger]
            self.bindings@.contains_key(h) ==> exists|i: int|
                0 <= i < self.handles.len() && #[trigger] self.handles[i]@ == h
    }

    /// A registry with no binding.
    pub fn new() -> (r: IdentityRegistry)
        ensures
            r.wf(),
            r@ == Map::<Seq<char>, AccountId>::empty(),
    {
        IdentityRegistry {
            handles: Vec::new(),
            accounts: Vec::new(),
            bindings: Ghost(Map::empty()),
        }
    }

    /// The account bound to `handle`, if any.
    pub fn resolve(&self, handle: &String) -> (r: Option<AccountId>)
        requires
            self.wf(),
        ensures
            r == (if self@.contains_key(handle@) {
                Some(self@[handle@])
            } else {
                None
            }),
    {
        let mut i: usize = 0;
        while i < self.handles.len()
            invariant
                self.wf(),
                0 <= i <= self.handles.len(),
                forall|j: int| 0 <= j < i ==> self.handles[j]@ != handle@,
            decreases self.handles.len() - i,
        {
            if self.handles[i] == *handle {
                return Some(self.accounts[i]);
            }
            i = i + 1;
        }
        None
    }

    /// Binds `handle` to `account` if `handle` is unbound; says whether it did.
    pub fn bind(&mut self, handle: String, account: AccountId) -> (r: bool)
        requires
            old(self).wf(),
        ensures
            final(self).wf(),
            r == !old(self)@.contains_key(handle@),
            r ==> final(self)@ == old(self)@.insert(handle@, account),
            !r ==> final(self)@ == old(self)@,
    {
        if self.resolve(&handle).is_some() {
            return false;
        }
        let ghost h = handle@;
        self.handles.push(handle);
        self.accounts.push(account);
        self.bindings = Ghost(self.bindings@.insert(h, account));
        assert forall|g: Seq<char>| #[trigger] self.bindings@.contains_key(g) implies exists|i: int|
            0 <= i < self.handles.len() && #[trigger] self.handles[i]@ == g by {
            if g == h {
                assert(self.handles[self.handles.len() - 1]@ == g);
            } else {
                assert(old(self).bindings@.contains_key(g));
                let i = choose|i: int|
                    0 <= i < old(self).handles.len() && #[trigger] old(self).handles[i]@ == g;
                assert(self.handles[i]@ == g);
            }
        }
        true
    }
}

} // verus!
