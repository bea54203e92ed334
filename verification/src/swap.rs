//! Stateless swap adapter.
//!
//! A seller who wants immediate liquidity routes a sale through an external
//! decentralized-exchange router instead of listing. The router lives
//! outside the machine, so the adapter is split around that call: the
//! builders here validate the inputs and produce the exact [`SwapRequest`]
//! the router must be invoked with (token path, slippage floor, a deadline
//! 300 seconds ahead), and [`swap_output_amount`] reads the realized output
//! from whatever amounts the router reported, rejecting a report that lacks
//! it. Slippage protection is purely the `amount_out_min` floor the router
//! enforces; the reported output is not re-validated beyond presence.

use vstd::prelude::*;

use crate::errors::Error;

verus! {

/// Seconds between now and the deadline handed to the router.
pub const SWAP_DEADLINE_DELAY: u64 = 300;

/// An exact-in swap for the external router: move `amount_in` along `path`,
/// paying out to `to`, insisting on at least `amount_out_min` and on
/// execution before `deadline`.
#[derive(Debug)]
pub struct SwapRequest {
    pub amount_in: i128,
    pub amount_out_min: i128,
    pub path: Vec<u64>,
    pub to: u64,
    pub deadline: u64,
}

/// A read-only quote query for the external router: the expected amounts
/// out for `amount_in` along `path`.
#[derive(Debug)]
pub struct QuoteRequest {
    pub amount_in: i128,
    pub path: Vec<u64>,
}

/// Build the direct two-hop swap of `amount_in` property tokens into the
/// quote asset. Rejects a non-positive input, a negative slippage floor,
/// and a clock too close to its end for the deadline.
pub fn swap_property_token_for_usdc(
    seller: u64,
    property_token: u64,
    usdc_token: u64,
    amount_in: i128,
    min_usdc_out: i128,
    now: u64,
) -> (r: Result<SwapRequest, Error>)
    ensures
        r is Ok <==> amount_in > 0 && min_usdc_out >= 0 && now + SWAP_DEADLINE_DELAY
            <= u64::MAX,
        r is Err ==> r == Err::<SwapRequest, Error>(Error::InvalidAmount),
        r matches Ok(req) ==> req.amount_in == amount_in && req.amount_out_min == min_usdc_out
            && req.path@ == seq![property_token, usdc_token] && req.to == seller && req.deadline
            == now + SWAP_DEADLINE_DELAY,
{
    if amount_in <= 0 {
        return Err(Error::InvalidAmount);
    }
    if min_usdc_out < 0 {
        return Err(Error::InvalidAmount);
    }
    let deadline = match now.checked_add(SWAP_DEADLINE_DELAY) {
        Some(d) => d,
        None => {
            return Err(Error::InvalidAmount);
        },
    };
    let mut path: Vec<u64> = Vec::new();
    path.push(property_token);
    path.push(usdc_token);
    proof {
        assert(path@ =~= seq![property_token, usdc_token]);
    }
    Ok(SwapRequest { amount_in, amount_out_min: min_usdc_out, path, to: seller, deadline })
}

/// Build the three-hop swap through a bridging asset, for pairs with no
/// direct liquidity pool.
pub fn swap_property_token_for_usdc_via_xlm(
    seller: u64,
    property_token: u64,
    xlm_token: u64,
    usdc_token: u64,
    amount_in: i128,
    min_usdc_out: i128,
    now: u64,
) -> (r: Result<SwapRequest, Error>)
    ensures
        r is Ok <==> amount_in > 0 && min_usdc_out >= 0 && now + SWAP_DEADLINE_DELAY
            <= u64::MAX,
        r is Err ==> r == Err::<SwapRequest, Error>(Error::InvalidAmount),
        r matches Ok(req) ==> req.amount_in == amount_in && req.amount_out_min == min_usdc_out
            && req.path@ == seq![property_token, xlm_token, usdc_token] && req.to == seller
            && req.deadline == now + SWAP_DEADLINE_DELAY,
{
    if amount_in <= 0 || min_usdc_out < 0 {
        return Err(Error::InvalidAmount);
    }
    let deadline = match now.checked_add(SWAP_DEADLINE_DELAY) {
        Some(d) => d,
        None => {
            return Err(Error::InvalidAmount);
        },
    };
    let mut path: Vec<u64> = Vec::new();
    path.push(property_token);
    path.push(xlm_token);
    path.push(usdc_token);
    proof {
        assert(path@ =~= seq![property_token, xlm_token, usdc_token]);
    }
    Ok(SwapRequest { amount_in, amount_out_min: min_usdc_out, path, to: seller, deadline })
}

/// Build the read-only quote query for the direct two-hop path.
pub fn get_swap_quote(
    property_token: u64,
    usdc_token: u64,
    amount_in: i128,
) -> (r: Result<QuoteRequest, Error>)
    ensures
        r is Ok <==> amount_in > 0,
        r is Err ==> r == Err::<QuoteRequest, Error>(Error::InvalidAmount),
        r matches Ok(req) ==> req.amount_in == amount_in && req.path@ == seq![
            property_token,
            usdc_token,
        ],
{
    if amount_in <= 0 {
        return Err(Error::InvalidAmount);
    }
    let mut path: Vec<u64> = Vec::new();
    path.push(property_token);
    path.push(usdc_token);
    proof {
        assert(path@ =~= seq![property_token, usdc_token]);
    }
    Ok(QuoteRequest { amount_in, path })
}

/// The realized output of a routed swap: the last hop's entry in the
/// amounts the router reported, for a request whose path had `path_len`
/// hops. Holds for every possible report; a report without that entry is
/// rejected.
pub fn swap_output_amount(amounts: &Vec<i128>, path_len: usize) -> (r: Result<i128, Error>)
    ensures
        r == if 1 <= path_len && path_len <= amounts@.len() {
            Ok::<i128, Error>(amounts@[path_len - 1])
        } else {
            Err::<i128, Error>(Error::InvalidAmount)
        },
{
    if path_len >= 1 && path_len <= amounts.len() {
        Ok(amounts[path_len - 1])
    } else {
        Err(Error::InvalidAmount)
    }
}

} // verus!
