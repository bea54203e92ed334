use stellar_property_core::auth::AuthContext;
use stellar_property_core::errors::Error;
use stellar_property_core::zk::{Groth16Proof, ZKVerifier};

const ADMIN: u64 = 1;

fn admin_auth() -> AuthContext {
    let mut auth = AuthContext::new();
    auth.grant(ADMIN);
    auth
}

fn mock_proof() -> Groth16Proof {
    Groth16Proof { a: (1, 2), b: ((3, 4), (5, 6)), c: (7, 8) }
}

#[test]
fn zk_test_initialize() {
    let mut verifier = ZKVerifier::new();
    let auth = admin_auth();

    verifier.initialize(&auth, ADMIN).unwrap();

    assert_eq!(verifier.admin(), ADMIN);
}

#[test]
fn test_verify_kyc_proof() {
    let mut verifier = ZKVerifier::new();
    let auth = admin_auth();

    verifier.initialize(&auth, ADMIN).unwrap();

    // Create mock proof
    let proof = mock_proof();

    let nullifier = 9;
    let commitment = 10;

    // First verification should succeed
    let verified = verifier.verify_kyc_proof(&proof, nullifier, commitment);
    assert!(verified);

    // Second verification with same nullifier should fail
    let verified_again = verifier.verify_kyc_proof(&proof, nullifier, commitment);
    assert!(!verified_again);
}

#[test]
fn test_nullifier_uniqueness() {
    let mut verifier = ZKVerifier::new();
    let auth = admin_auth();

    verifier.initialize(&auth, ADMIN).unwrap();

    let nullifier = 9;

    // Not used initially
    assert!(!verifier.is_nullifier_used(nullifier));

    // Use it
    let proof = mock_proof();
    verifier.verify_kyc_proof(&proof, nullifier, 10);

    // Now it's used
    assert!(verifier.is_nullifier_used(nullifier));
}

#[test]
fn zk_registries_are_independent() {
    // Each proof kind has its own registry: consuming a nullifier for one
    // kind leaves it fresh for the others, yet `is_nullifier_used` reports
    // it used.
    let mut verifier = ZKVerifier::new();
    let auth = admin_auth();
    verifier.initialize(&auth, ADMIN).unwrap();

    let proof = mock_proof();
    assert!(verifier.verify_accredited_proof(&proof, 77, 1000, 500));
    assert!(!verifier.verify_accredited_proof(&proof, 77, 1000, 500));
    assert!(verifier.verify_ownership_proof(&proof, 77, 10, 3));
    assert!(!verifier.verify_ownership_proof(&proof, 77, 10, 3));
    assert!(verifier.verify_kyc_proof(&proof, 77, 0));
    assert!(verifier.is_nullifier_used(77));
    assert!(!verifier.is_nullifier_used(78));
}

#[test]
fn zk_initialize_error_cases() {
    let mut verifier = ZKVerifier::new();
    let nobody = AuthContext::new();
    assert_eq!(verifier.initialize(&nobody, ADMIN), Err(Error::NotAuthorized));

    let auth = admin_auth();
    verifier.initialize(&auth, ADMIN).unwrap();
    assert_eq!(verifier.initialize(&auth, ADMIN), Err(Error::AlreadyInitialized));
}
