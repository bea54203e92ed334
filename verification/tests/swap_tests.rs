use stellar_property_core::auth::AuthContext;
use stellar_property_core::errors::Error;
use stellar_property_core::marketplace::MarketplaceContract;
use stellar_property_core::swap::{
    get_swap_quote, swap_output_amount, swap_property_token_for_usdc,
    swap_property_token_for_usdc_via_xlm, SWAP_DEADLINE_DELAY,
};

const SELLER: u64 = 2;
const MARKET: u64 = 101;
const PROPERTY: u64 = 201;
const XLM: u64 = 202;
const USDC: u64 = 200;

#[test]
fn swap_builds_direct_request() {
    let req = swap_property_token_for_usdc(SELLER, PROPERTY, USDC, 1000, 950, 5000).unwrap();
    assert_eq!(req.amount_in, 1000);
    assert_eq!(req.amount_out_min, 950);
    assert_eq!(req.path, vec![PROPERTY, USDC]);
    assert_eq!(req.to, SELLER);
    assert_eq!(req.deadline, 5000 + SWAP_DEADLINE_DELAY);
}

#[test]
fn swap_builds_three_hop_request() {
    let req =
        swap_property_token_for_usdc_via_xlm(SELLER, PROPERTY, XLM, USDC, 1000, 0, 7).unwrap();
    assert_eq!(req.path, vec![PROPERTY, XLM, USDC]);
    assert_eq!(req.amount_out_min, 0);
    assert_eq!(req.deadline, 307);
}

#[test]
fn swap_rejects_bad_inputs() {
    assert_eq!(
        swap_property_token_for_usdc(SELLER, PROPERTY, USDC, 0, 0, 0).unwrap_err(),
        Error::InvalidAmount
    );
    assert_eq!(
        swap_property_token_for_usdc(SELLER, PROPERTY, USDC, 10, -1, 0).unwrap_err(),
        Error::InvalidAmount
    );
    // A clock too close to its end for the deadline.
    assert_eq!(
        swap_property_token_for_usdc(SELLER, PROPERTY, USDC, 10, 0, u64::MAX).unwrap_err(),
        Error::InvalidAmount
    );
    assert_eq!(
        swap_property_token_for_usdc_via_xlm(SELLER, PROPERTY, XLM, USDC, -3, 0, 0).unwrap_err(),
        Error::InvalidAmount
    );
}

#[test]
fn swap_reads_router_output() {
    // A two-hop request reads the second reported amount, a three-hop
    // request the third; a report without that entry is rejected.
    let amounts = vec![1000, 940];
    assert_eq!(swap_output_amount(&amounts, 2).unwrap(), 940);

    let amounts3 = vec![1000, 500, 930];
    assert_eq!(swap_output_amount(&amounts3, 3).unwrap(), 930);

    let short = vec![1000];
    assert_eq!(swap_output_amount(&short, 2).unwrap_err(), Error::InvalidAmount);
    let empty: Vec<i128> = vec![];
    assert_eq!(swap_output_amount(&empty, 2).unwrap_err(), Error::InvalidAmount);
}

#[test]
fn swap_quote_request() {
    let q = get_swap_quote(PROPERTY, USDC, 123).unwrap();
    assert_eq!(q.amount_in, 123);
    assert_eq!(q.path, vec![PROPERTY, USDC]);
    assert_eq!(get_swap_quote(PROPERTY, USDC, 0).unwrap_err(), Error::InvalidAmount);
}

#[test]
fn marketplace_swaps_require_seller_consent() {
    let market = MarketplaceContract::new(MARKET);
    let nobody = AuthContext::new();
    let mut seller_auth = AuthContext::new();
    seller_auth.grant(SELLER);

    assert_eq!(
        market
            .swap_tokens_for_usdc(&nobody, SELLER, PROPERTY, USDC, 10, 9, 0)
            .unwrap_err(),
        Error::NotAuthorized
    );
    let req = market
        .swap_tokens_for_usdc(&seller_auth, SELLER, PROPERTY, USDC, 10, 9, 0)
        .unwrap();
    assert_eq!(req.path, vec![PROPERTY, USDC]);

    assert_eq!(
        market
            .swap_tokens_for_usdc_via_xlm(&nobody, SELLER, PROPERTY, XLM, USDC, 10, 9, 0)
            .unwrap_err(),
        Error::NotAuthorized
    );
    let req3 = market
        .swap_tokens_for_usdc_via_xlm(&seller_auth, SELLER, PROPERTY, XLM, USDC, 10, 9, 0)
        .unwrap();
    assert_eq!(req3.path, vec![PROPERTY, XLM, USDC]);

    // Quotes need no consent.
    let q = market.get_swap_quote(PROPERTY, USDC, 10).unwrap();
    assert_eq!(q.amount_in, 10);
}
