//! Proof verifier and nullifier registry.
//!
//! [`ZKVerifier`] keeps one registry of consumed nullifiers per proof kind
//! and guarantees that a nullifier is accepted at most once: the first
//! verification consumes it, every later attempt with the same nullifier is
//! refused. The pairing arithmetic needed to check the proof itself is not
//! available on the hosting ledger, so proof acceptance is deferred to
//! off-chain review and every well-formed proof is accepted here — replay
//! protection rests on the nullifier registries alone.

use vstd::prelude::*;

use crate::auth::AuthContext;
use crate::errors::Error;

verus! {

/// A pairing-based proof: two curve points `a` and `c` and a twisted point
/// `b`, each coordinate carried as a plain value.
#[derive(Clone, Copy, Debug)]
pub struct Groth16Proof {
    pub a: (u128, u128),
    pub b: ((u128, u128), (u128, u128)),
    pub c: (u128, u128),
}

/// Whether `list` holds `n`.
fn contains_nullifier(list: &Vec<u128>, n: u128) -> (r: bool)
    ensures
        r == list@.contains(n),
{
    let len = list.len();
    let mut i: usize = 0;
    while i < len
        invariant
            i <= len,
            len == list@.len(),
            forall|j: int| 0 <= j < i ==> list@[j] != n,
        decreases len - i,
    {
        if list[i] == n {
            return true;
        }
        i = i + 1;
    }
    false
}

/// Proof verifier with per-kind nullifier registries.
#[derive(Debug)]
pub struct ZKVerifier {
    pub initialized: bool,
    pub admin: u64,
    pub kyc_nullifiers: Vec<u128>,
    pub accredited_nullifiers: Vec<u128>,
    pub ownership_nullifiers: Vec<u128>,
}

impl ZKVerifier {
    /// A fresh verifier with empty registries.
    pub fn new() -> (r: ZKVerifier)
        ensures
            !r.initialized,
            r.kyc_nullifiers@ == Seq::<u128>::empty(),
            r.accredited_nullifiers@ == Seq::<u128>::empty(),
            r.ownership_nullifiers@ == Seq::<u128>::empty(),
    {
        ZKVerifier {
            initialized: false,
            admin: 0,
            kyc_nullifiers: Vec::new(),
            accredited_nullifiers: Vec::new(),
            ownership_nullifiers: Vec::new(),
        }
    }

    /// One-time setup of the verifier's admin; requires the admin's
    /// consent and fails with `AlreadyInitialized` if called twice.
    pub fn initialize(&mut self, auth: &AuthContext, admin: u64) -> (r: Result<(), Error>)
        ensures
            old(self).initialized ==> r == Err::<(), Error>(Error::AlreadyInitialized)
                && *final(self) == *old(self),
            !old(self).initialized && !auth@.contains(admin) ==> r == Err::<(), Error>(
                Error::NotAuthorized,
            ) && *final(self) == *old(self),
            !old(self).initialized && auth@.contains(admin) ==> r == Ok::<(), Error>(())
                && *final(self) == (ZKVerifier {
                initialized: true,
                admin: admin,
                ..*old(self)
            }),
    {
        if self.initialized {
            return Err(Error::AlreadyInitialized);
        }
        if !auth.allows(admin) {
            return Err(Error::NotAuthorized);
        }
        self.initialized = true;
        self.admin = admin;
        Ok(())
    }

    /// Off-chain proof acceptance: the ledger lacks the pairing primitives
    /// for checking the proof on-chain, so every well-formed proof passes.
    fn accept_proof(_proof: &Groth16Proof) -> (r: bool)
        ensures
            r,
    {
        true
    }

    /// Verify a know-your-customer proof. Succeeds exactly when the
    /// nullifier is fresh, consuming it; a consumed nullifier is refused
    /// and nothing changes.
    pub fn verify_kyc_proof(
        &mut self,
        proof: &Groth16Proof,
        nullifier: u128,
        _commitment: u128,
    ) -> (r: bool)
        ensures
            r == !old(self).kyc_nullifiers@.contains(nullifier),
            r ==> final(self).kyc_nullifiers@ == old(self).kyc_nullifiers@.push(nullifier)
                && final(self).accredited_nullifiers@ == old(self).accredited_nullifiers@
                && final(self).ownership_nullifiers@ == old(self).ownership_nullifiers@
                && final(self).initialized == old(self).initialized && final(self).admin == old(
                self,
            ).admin,
            !r ==> *final(self) == *old(self),
    {
        if contains_nullifier(&self.kyc_nullifiers, nullifier) {
            return false;
        }
        let verified = Self::accept_proof(proof);
        if verified {
            self.kyc_nullifiers.push(nullifier);
        }
        verified
    }

    /// Verify an accredited-investor proof; same nullifier discipline as
    /// [`Self::verify_kyc_proof`], on its own registry.
    pub fn verify_accredited_proof(
        &mut self,
        proof: &Groth16Proof,
        nullifier: u128,
        _min_net_worth: i128,
        _min_income: i128,
    ) -> (r: bool)
        ensures
            r == !old(self).accredited_nullifiers@.contains(nullifier),
            r ==> final(self).accredited_nullifiers@ == old(self).accredited_nullifiers@.push(
                nullifier,
            ) && final(self).kyc_nullifiers@ == old(self).kyc_nullifiers@
                && final(self).ownership_nullifiers@ == old(self).ownership_nullifiers@
                && final(self).initialized == old(self).initialized && final(self).admin == old(
                self,
            ).admin,
            !r ==> *final(self) == *old(self),
    {
        if contains_nullifier(&self.accredited_nullifiers, nullifier) {
            return false;
        }
        let verified = Self::accept_proof(proof);
        if verified {
            self.accredited_nullifiers.push(nullifier);
        }
        verified
    }

    /// Verify an ownership proof; same nullifier discipline as
    /// [`Self::verify_kyc_proof`], on its own registry.
    pub fn verify_ownership_proof(
        &mut self,
        proof: &Groth16Proof,
        nullifier: u128,
        _min_balance: i128,
        _token_address: u64,
    ) -> (r: bool)
        ensures
            r == !old(self).ownership_nullifiers@.contains(nullifier),
            r ==> final(self).ownership_nullifiers@ == old(self).ownership_nullifiers@.push(
                nullifier,
            ) && final(self).kyc_nullifiers@ == old(self).kyc_nullifiers@
                && final(self).accredited_nullifiers@ == old(self).accredited_nullifiers@
                && final(self).initialized == old(self).initialized && final(self).admin == old(
                self,
            ).admin,
            !r ==> *final(self) == *old(self),
    {
        if contains_nullifier(&self.ownership_nullifiers, nullifier) {
            return false;
        }
        let verified = Self::accept_proof(proof);
        if verified {
            self.ownership_nullifiers.push(nullifier);
        }
        verified
    }

    /// Whether `nullifier` has been consumed by any proof kind.
    pub fn is_nullifier_used(&self, nullifier: u128) -> (r: bool)
        ensures
            r == (self.kyc_nullifiers@.contains(nullifier)
                || self.accredited_nullifiers@.contains(nullifier)
                || self.ownership_nullifiers@.contains(nullifier)),
    {
        contains_nullifier(&self.kyc_nullifiers, nullifier) || contains_nullifier(
            &self.accredited_nullifiers,
            nullifier,
        ) || contains_nullifier(&self.ownership_nullifiers, nullifier)
    }

    /// The admin chosen at initialization.
    pub fn admin(&self) -> (r: u64)
        requires
            self.initialized,
        ensures
            r == self.admin,
    {
        self.admin
    }
}

} // verus!
