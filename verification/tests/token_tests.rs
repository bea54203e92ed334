use stellar_property_core::errors::Error;
use stellar_property_core::token::UsdcMockToken;

const ADMIN: u64 = 1;
const ALICE: u64 = 2;
const BOB: u64 = 3;
const CAROL: u64 = 4;
const USDC: u64 = 200;

#[test]
fn token_mint_and_balance() {
    let mut usdc = UsdcMockToken::new(USDC);
    assert_eq!(usdc.balance(ALICE), 0);
    assert_eq!(usdc.total_supply(), 0);

    usdc.mint(ALICE, 700).unwrap();
    usdc.mint(BOB, 300).unwrap();
    usdc.mint(ALICE, 50).unwrap();

    assert_eq!(usdc.balance(ALICE), 750);
    assert_eq!(usdc.balance(BOB), 300);
    assert_eq!(usdc.balance(CAROL), 0);
    assert_eq!(usdc.total_supply(), 1050);
}

#[test]
fn token_transfer_moves_exactly_the_amount() {
    let mut usdc = UsdcMockToken::new(USDC);
    usdc.mint(ALICE, 1000).unwrap();

    usdc.transfer(ALICE, BOB, 400).unwrap();

    assert_eq!(usdc.balance(ALICE), 600);
    assert_eq!(usdc.balance(BOB), 400);
    // Moves never change the supply: funds are conserved.
    assert_eq!(usdc.total_supply(), 1000);

    // A move to oneself changes nothing.
    usdc.transfer(ALICE, ALICE, 100).unwrap();
    assert_eq!(usdc.balance(ALICE), 600);
    assert_eq!(usdc.total_supply(), 1000);
}

#[test]
fn token_approve_and_transfer_from() {
    let mut usdc = UsdcMockToken::new(USDC);
    usdc.mint(ALICE, 1000).unwrap();

    usdc.approve(ALICE, BOB, 500);
    assert_eq!(usdc.allowance(ALICE, BOB), 500);

    usdc.transfer_from(BOB, ALICE, CAROL, 200).unwrap();
    assert_eq!(usdc.balance(ALICE), 800);
    assert_eq!(usdc.balance(CAROL), 200);
    // The allowance is consumed by exactly the moved amount.
    assert_eq!(usdc.allowance(ALICE, BOB), 300);

    // Exceeding the remaining allowance is rejected.
    assert_eq!(
        usdc.transfer_from(BOB, ALICE, CAROL, 301),
        Err(Error::InsufficientAllowance)
    );
}

#[test]
fn token_error_cases() {
    let mut usdc = UsdcMockToken::new(USDC);
    usdc.mint(ALICE, 100).unwrap();

    assert_eq!(usdc.mint(ALICE, 0), Err(Error::InvalidAmount));
    assert_eq!(usdc.mint(ALICE, -5), Err(Error::InvalidAmount));
    assert_eq!(usdc.mint(ALICE, i128::MAX), Err(Error::MintExceedsSupply));

    assert_eq!(usdc.transfer(ALICE, BOB, 0), Err(Error::InvalidAmount));
    assert_eq!(usdc.transfer(ALICE, BOB, 101), Err(Error::InsufficientBalance));
    assert_eq!(usdc.transfer(BOB, ALICE, 1), Err(Error::InsufficientBalance));

    usdc.approve(ALICE, BOB, 1000);
    assert_eq!(usdc.transfer_from(BOB, ALICE, CAROL, 0), Err(Error::InvalidAmount));
    assert_eq!(
        usdc.transfer_from(BOB, ALICE, CAROL, 200),
        Err(Error::InsufficientBalance)
    );

    // Nothing moved through all those rejections.
    assert_eq!(usdc.balance(ALICE), 100);
    assert_eq!(usdc.balance(BOB), 0);
    assert_eq!(usdc.total_supply(), 100);
}

#[test]
fn token_initialize_once() {
    let mut usdc = UsdcMockToken::new(USDC);
    usdc.initialize(ADMIN).unwrap();
    assert_eq!(usdc.admin(), ADMIN);
    assert_eq!(usdc.initialize(ADMIN), Err(Error::AlreadyInitialized));
}

#[test]
fn error_codes_follow_the_taxonomy() {
    assert_eq!(Error::AlreadyInitialized.code(), 1);
    assert_eq!(Error::NotAuthorized.code(), 3);
    assert_eq!(Error::InvalidAmount.code(), 4);
    assert_eq!(Error::InsufficientBalance.code(), 11);
    assert_eq!(Error::InsufficientAllowance.code(), 12);
    assert_eq!(Error::MintExceedsSupply.code(), 14);
    assert_eq!(Error::ListingNotFound.code(), 31);
    assert_eq!(Error::ListingCancelled.code(), 34);
    assert_eq!(Error::InvalidPrice.code(), 35);
    assert_eq!(Error::InvalidListingAmount.code(), 36);
    assert_eq!(Error::EscrowNotFound.code(), 41);
    assert_eq!(Error::EscrowNotLocked.code(), 43);
}
