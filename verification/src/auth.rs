//! Explicit authorization capability.
//!
//! On the hosting ledger, an operation's claimed principal must have
//! cryptographically consented to the invocation. The library models that
//! ambient check as an explicit value: an [`AuthContext`] lists the
//! principals that have consented to the current invocation, and each
//! operation tests the principals it needs against it. Principals are plain
//! numeric identities.

use vstd::prelude::*;

verus! {

/// The set of principals that have consented to the current invocation.
#[derive(Debug)]
pub struct AuthContext {
    pub signers: Vec<u64>,
}

impl View for AuthContext {
    type V = Seq<u64>;

    open spec fn view(&self) -> Seq<u64> {
        self.signers@
    }
}

impl AuthContext {
    /// An invocation to which nobody has consented.
    pub fn new() -> (r: AuthContext)
        ensures
            r@ == Seq::<u64>::empty(),
    {
        AuthContext { signers: Vec::new() }
    }

    /// Record that `principal` has consented to this invocation.
    pub fn grant(&mut self, principal: u64)
        ensures
            final(self)@ == old(self)@.push(principal),
    {
        self.signers.push(principal);
    }

    /// Whether `principal` has consented to this invocation.
    pub fn allows(&self, principal: u64) -> (r: bool)
        ensures
            r == self@.contains(principal),
    {
        let n = self.signers.len();
        let mut i: usize = 0;
        while i < n
            invariant
                i <= n,
                n == self.signers@.len(),
                forall|j: int| 0 <= j < i ==> self.signers@[j] != principal,
            decreases n - i,
        {
            if self.signers[i] == principal {
                return true;
            }
            i = i + 1;
        }
        false
    }
}

} // verus!
