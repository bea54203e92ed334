use stellar_property_core::auth::AuthContext;
use stellar_property_core::errors::Error;
use stellar_property_core::escrow::{EscrowContract, EscrowEvent, EscrowStatus};
use stellar_property_core::token::UsdcMockToken;

const ADMIN: u64 = 1;
const BUYER: u64 = 2;
const SELLER: u64 = 3;
const MARKETPLACE: u64 = 4;
const CUSTODY: u64 = 100;
const USDC: u64 = 200;

fn all_auths() -> AuthContext {
    let mut auth = AuthContext::new();
    auth.grant(ADMIN);
    auth.grant(BUYER);
    auth.grant(SELLER);
    auth
}

#[test]
fn test_initialize() {
    let mut escrow = EscrowContract::new(CUSTODY);
    let auth = all_auths();

    escrow.initialize(&auth, ADMIN, USDC, MARKETPLACE).unwrap();

    assert_eq!(escrow.admin(), ADMIN);
}

#[test]
fn test_lock_and_release_funds() {
    let mut escrow = EscrowContract::new(CUSTODY);
    let mut usdc = UsdcMockToken::new(USDC);
    let auth = all_auths();

    // Mint USDC to buyer
    usdc.mint(BUYER, 1000_0000000).unwrap();

    escrow.initialize(&auth, ADMIN, USDC, MARKETPLACE).unwrap();

    // Lock funds
    let amount = 500_0000000;
    let listing_id = 1;
    let timeout = 86400; // 24 hours
    let now = 0;

    let escrow_id = escrow
        .lock_funds(&mut usdc, &auth, BUYER, SELLER, amount, listing_id, timeout, now)
        .unwrap();

    // Check escrow status
    let status = escrow.get_escrow_status(escrow_id).unwrap();
    assert_eq!(status, EscrowStatus::Locked);

    // Check contract received funds
    assert_eq!(usdc.balance(CUSTODY), amount);

    // Release funds to seller
    escrow.release_to_seller(&mut usdc, &auth, escrow_id).unwrap();

    // Check status updated
    let status = escrow.get_escrow_status(escrow_id).unwrap();
    assert_eq!(status, EscrowStatus::Released);

    // Check seller received funds
    assert_eq!(usdc.balance(SELLER), amount);
    assert_eq!(usdc.balance(CUSTODY), 0);
}

#[test]
fn test_refund_after_timeout() {
    let mut escrow = EscrowContract::new(CUSTODY);
    let mut usdc = UsdcMockToken::new(USDC);
    let auth = all_auths();

    usdc.mint(BUYER, 1000_0000000).unwrap();

    escrow.initialize(&auth, ADMIN, USDC, MARKETPLACE).unwrap();

    let amount = 500_0000000;
    let listing_id = 1;
    let timeout = 10; // 10 seconds
    let now = 0;

    let escrow_id = escrow
        .lock_funds(&mut usdc, &auth, BUYER, SELLER, amount, listing_id, timeout, now)
        .unwrap();

    // Advance time past timeout
    let later = now + timeout + 1;

    // Refund to buyer
    escrow.refund_to_buyer(&mut usdc, &auth, escrow_id, later).unwrap();

    // Check status
    let status = escrow.get_escrow_status(escrow_id).unwrap();
    assert_eq!(status, EscrowStatus::Refunded);

    // Check buyer received refund
    assert_eq!(usdc.balance(BUYER), 1000_0000000);
    assert_eq!(usdc.balance(CUSTODY), 0);
}

#[test]
#[should_panic(expected = "EscrowNotFound")]
fn test_get_nonexistent_escrow() {
    let mut escrow = EscrowContract::new(CUSTODY);
    let auth = all_auths();

    escrow.initialize(&auth, ADMIN, USDC, MARKETPLACE).unwrap();

    // Try to get nonexistent escrow
    escrow.get_escrow_status(999).unwrap();
}

#[test]
fn escrow_full_release_scenario() {
    // Buyer locks 500 units with a 86,400-second timeout against the seller
    // for listing 1, the record reads back Locked, and a release moves the
    // 500 units to the seller, emptying custody.
    let mut escrow = EscrowContract::new(CUSTODY);
    let mut usdc = UsdcMockToken::new(USDC);
    let auth = all_auths();

    usdc.mint(BUYER, 500).unwrap();
    escrow.initialize(&auth, ADMIN, USDC, MARKETPLACE).unwrap();

    let escrow_id = escrow
        .lock_funds(&mut usdc, &auth, BUYER, SELLER, 500, 1, 86400, 1000)
        .unwrap();
    assert_eq!(escrow.get_escrow_status(escrow_id).unwrap(), EscrowStatus::Locked);
    assert_eq!(usdc.balance(BUYER), 0);
    assert_eq!(usdc.balance(CUSTODY), 500);

    escrow.release_to_seller(&mut usdc, &auth, escrow_id).unwrap();
    assert_eq!(escrow.get_escrow_status(escrow_id).unwrap(), EscrowStatus::Released);
    assert_eq!(usdc.balance(SELLER), 500);
    assert_eq!(usdc.balance(CUSTODY), 0);

    // One event per committed transition, in order.
    assert_eq!(
        escrow.events,
        vec![
            EscrowEvent::FundsLocked { escrow_id, buyer: BUYER, amount: 500 },
            EscrowEvent::FundsReleased { escrow_id, seller: SELLER, amount: 500 },
        ]
    );
}

#[test]
fn escrow_self_service_refund_scenario() {
    // Buyer locks 500 units with a 10-second timeout; 11 seconds later a
    // refund with the buyer's consent alone succeeds and fully restores the
    // buyer's balance.
    let mut escrow = EscrowContract::new(CUSTODY);
    let mut usdc = UsdcMockToken::new(USDC);
    let auth = all_auths();

    usdc.mint(BUYER, 500).unwrap();
    escrow.initialize(&auth, ADMIN, USDC, MARKETPLACE).unwrap();

    let escrow_id = escrow
        .lock_funds(&mut usdc, &auth, BUYER, SELLER, 500, 1, 10, 0)
        .unwrap();

    let mut buyer_only = AuthContext::new();
    buyer_only.grant(BUYER);

    // Before the timeout, the buyer's own consent is not enough.
    assert_eq!(
        escrow.refund_to_buyer(&mut usdc, &buyer_only, escrow_id, 5),
        Err(Error::NotAuthorized)
    );

    // From the timeout on it is.
    escrow.refund_to_buyer(&mut usdc, &buyer_only, escrow_id, 11).unwrap();
    assert_eq!(escrow.get_escrow_status(escrow_id).unwrap(), EscrowStatus::Refunded);
    assert_eq!(usdc.balance(BUYER), 500);
    assert_eq!(usdc.balance(CUSTODY), 0);
    assert_eq!(
        escrow.events.last(),
        Some(&EscrowEvent::FundsRefunded { escrow_id, buyer: BUYER, amount: 500 })
    );
}

#[test]
fn escrow_admin_refund_before_timeout() {
    // Before the timeout the admin's consent suffices for a refund.
    let mut escrow = EscrowContract::new(CUSTODY);
    let mut usdc = UsdcMockToken::new(USDC);
    let auth = all_auths();

    usdc.mint(BUYER, 500).unwrap();
    escrow.initialize(&auth, ADMIN, USDC, MARKETPLACE).unwrap();
    let escrow_id = escrow
        .lock_funds(&mut usdc, &auth, BUYER, SELLER, 500, 1, 1000, 0)
        .unwrap();

    let mut admin_only = AuthContext::new();
    admin_only.grant(ADMIN);
    escrow.refund_to_buyer(&mut usdc, &admin_only, escrow_id, 5).unwrap();
    assert_eq!(usdc.balance(BUYER), 500);
}

#[test]
fn escrow_terminal_records_reject_further_moves() {
    // Once released, further release or refund attempts fail with the
    // "not locked" error and move no funds.
    let mut escrow = EscrowContract::new(CUSTODY);
    let mut usdc = UsdcMockToken::new(USDC);
    let auth = all_auths();

    usdc.mint(BUYER, 500).unwrap();
    escrow.initialize(&auth, ADMIN, USDC, MARKETPLACE).unwrap();
    let escrow_id = escrow
        .lock_funds(&mut usdc, &auth, BUYER, SELLER, 500, 1, 10, 0)
        .unwrap();
    escrow.release_to_seller(&mut usdc, &auth, escrow_id).unwrap();

    assert_eq!(
        escrow.release_to_seller(&mut usdc, &auth, escrow_id),
        Err(Error::EscrowNotLocked)
    );
    assert_eq!(
        escrow.refund_to_buyer(&mut usdc, &auth, escrow_id, 100),
        Err(Error::EscrowNotLocked)
    );
    assert_eq!(usdc.balance(SELLER), 500);
    assert_eq!(usdc.balance(BUYER), 0);
    assert_eq!(usdc.balance(CUSTODY), 0);
}

#[test]
fn escrow_error_cases() {
    let mut escrow = EscrowContract::new(CUSTODY);
    let mut usdc = UsdcMockToken::new(USDC);
    let auth = all_auths();

    usdc.mint(BUYER, 100).unwrap();

    // Operating before initialization is rejected.
    assert_eq!(
        escrow.lock_funds(&mut usdc, &auth, BUYER, SELLER, 50, 1, 10, 0),
        Err(Error::NotInitialized)
    );

    escrow.initialize(&auth, ADMIN, USDC, MARKETPLACE).unwrap();

    // A second initialization is rejected.
    assert_eq!(
        escrow.initialize(&auth, ADMIN, USDC, MARKETPLACE),
        Err(Error::AlreadyInitialized)
    );

    // Zero and negative amounts are rejected before any transfer.
    assert_eq!(
        escrow.lock_funds(&mut usdc, &auth, BUYER, SELLER, 0, 1, 10, 0),
        Err(Error::InvalidAmount)
    );
    assert_eq!(
        escrow.lock_funds(&mut usdc, &auth, BUYER, SELLER, -5, 1, 10, 0),
        Err(Error::InvalidAmount)
    );
    assert_eq!(usdc.balance(BUYER), 100);

    // Locking more than the buyer holds is rejected.
    assert_eq!(
        escrow.lock_funds(&mut usdc, &auth, BUYER, SELLER, 200, 1, 10, 0),
        Err(Error::InsufficientBalance)
    );

    // A lock without the buyer's consent is rejected.
    let mut admin_only = AuthContext::new();
    admin_only.grant(ADMIN);
    assert_eq!(
        escrow.lock_funds(&mut usdc, &admin_only, BUYER, SELLER, 50, 1, 10, 0),
        Err(Error::NotAuthorized)
    );

    // Releasing an unknown record is rejected.
    assert_eq!(
        escrow.release_to_seller(&mut usdc, &auth, 99),
        Err(Error::EscrowNotFound)
    );
    assert_eq!(
        escrow.refund_to_buyer(&mut usdc, &auth, 99, 0),
        Err(Error::EscrowNotFound)
    );

    // A release without the admin's consent is rejected.
    let escrow_id = escrow
        .lock_funds(&mut usdc, &auth, BUYER, SELLER, 50, 1, 10, 0)
        .unwrap();
    let mut buyer_only = AuthContext::new();
    buyer_only.grant(BUYER);
    assert_eq!(
        escrow.release_to_seller(&mut usdc, &buyer_only, escrow_id),
        Err(Error::NotAuthorized)
    );
}

#[test]
fn escrow_record_round_trip_and_views() {
    // The record read back right after a lock carries exactly the call's
    // inputs plus the assigned id and the computed timeout.
    let mut escrow = EscrowContract::new(CUSTODY);
    let mut usdc = UsdcMockToken::new(USDC);
    let auth = all_auths();

    usdc.mint(BUYER, 1000).unwrap();
    escrow.initialize(&auth, ADMIN, USDC, MARKETPLACE).unwrap();

    let id_a = escrow
        .lock_funds(&mut usdc, &auth, BUYER, SELLER, 300, 7, 60, 50)
        .unwrap();
    let id_b = escrow
        .lock_funds(&mut usdc, &auth, BUYER, SELLER, 200, 8, 90, 55)
        .unwrap();
    assert_eq!(id_a, 0);
    assert_eq!(id_b, 1);

    let rec = escrow.get_escrow_data(id_a).unwrap();
    assert_eq!(rec.buyer, BUYER);
    assert_eq!(rec.seller, SELLER);
    assert_eq!(rec.amount, 300);
    assert_eq!(rec.token, USDC);
    assert_eq!(rec.listing_id, 7);
    assert_eq!(rec.status, EscrowStatus::Locked);
    assert_eq!(rec.created_at, 50);
    assert_eq!(rec.timeout_at, 110);

    assert_eq!(escrow.is_timed_out(id_a, 109).unwrap(), false);
    assert_eq!(escrow.is_timed_out(id_a, 110).unwrap(), true);
}
