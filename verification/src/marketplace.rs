//! Marketplace listing and trade engine.
//!
//! [`MarketplaceContract`] owns the listings and the trade history. A
//! listing is created `Active` by [`MarketplaceContract::list_property`],
//! which takes the offered tokens into marketplace custody; purchases
//! decrement its remaining amount, completing it exactly when the amount
//! reaches zero, and a seller may cancel an active listing to get the rest
//! back. The trade history is a bounded sequence: at its hard cap each new
//! trade evicts exactly the oldest entry.
//!
//! As in the escrow machine, every operation is specified by a transition
//! function over the mathematical views, the executable method returns
//! exactly what the transition says, and nothing changes on any error.
//! Effects are committed before balances move, and moves are pre-checked so
//! a failing transfer cannot leave a half-applied state. Quote-asset
//! settlement is checked as an allowance precondition only; the purchased
//! asset moves directly from marketplace custody to the buyer, while
//! routing the payment through the escrow machine remains the seller's and
//! buyer's own protocol.

use vstd::prelude::*;

use crate::auth::AuthContext;
use crate::errors::Error;
use crate::swap::{QuoteRequest, SwapRequest};
use crate::token::{spec_move, TokenView, UsdcMockToken};

verus! {

/// Hard cap on the number of retained trades.
pub const MAX_TRADE_HISTORY: usize = 10000;

/// Sale status of one listing.
#[derive(Clone, Copy, Debug, PartialEq, Eq, Structural)]
pub enum ListingStatus {
    Active,
    Cancelled,
    Completed,
}

/// One listing; its id is its position in the listing store.
#[derive(Clone, Copy, Debug, PartialEq, Eq, Structural)]
pub struct Listing {
    pub id: u64,
    pub seller: u64,
    pub token: u64,
    pub amount: i128,
    pub price_per_token: i128,
    pub status: ListingStatus,
    pub created_at: u64,
}

/// One executed purchase, recorded in the bounded trade history.
#[derive(Clone, Copy, Debug, PartialEq, Eq, Structural)]
pub struct Trade {
    pub listing_id: u64,
    pub buyer: u64,
    pub seller: u64,
    pub amount: i128,
    pub price: i128,
    pub timestamp: u64,
}

/// Events the marketplace emits, one per committed state transition.
#[derive(Clone, Copy, Debug, PartialEq, Eq, Structural)]
pub enum MarketEvent {
    ListingCreated { listing_id: u64, seller: u64, token: u64, amount: i128, price: i128 },
    TokensPurchased { listing_id: u64, buyer: u64, seller: u64, amount: i128, price: i128 },
    ListingCancelled { listing_id: u64, seller: u64 },
}

/// The mathematical state of the marketplace.
#[verifier::ext_equal]
pub struct MarketView {
    pub me: u64,
    pub initialized: bool,
    pub admin: u64,
    pub escrow_contract: u64,
    pub registry_contract: u64,
    pub listings: Seq<Listing>,
    pub trades: Seq<Trade>,
    pub events: Seq<MarketEvent>,
}

impl MarketView {
    /// Listings sit at their own id, carry a positive unit price and a
    /// non-negative remaining amount that is positive while the listing is
    /// active; the trade history never exceeds its cap.
    pub open spec fn wf(self) -> bool {
        &&& forall|i: int|
            0 <= i < self.listings.len() ==> (#[trigger] self.listings[i]).id == i
                && self.listings[i].price_per_token > 0 && self.listings[i].amount >= 0 && (
            self.listings[i].status == ListingStatus::Active ==> self.listings[i].amount > 0)
        &&& self.trades.len() <= MAX_TRADE_HISTORY
    }
}

/// One-time setup: record the admin and the escrow and registry contract
/// principals; fails if repeated or unauthorized.
pub open spec fn spec_initialize(
    m: MarketView,
    signers: Seq<u64>,
    admin: u64,
    escrow_contract: u64,
    registry_contract: u64,
) -> (MarketView, Result<(), Error>) {
    if m.initialized {
        (m, Err(Error::AlreadyInitialized))
    } else if !signers.contains(admin) {
        (m, Err(Error::NotAuthorized))
    } else {
        (
            MarketView {
                initialized: true,
                admin: admin,
                escrow_contract: escrow_contract,
                registry_contract: registry_contract,
                ..m
            },
            Ok(()),
        )
    }
}

/// List `amount` tokens of `asset` at `price_per_token` each: with the
/// seller's consent, positive inputs and a sufficient seller balance, the
/// tokens move into marketplace custody and a fresh `Active` listing is
/// stored.
pub open spec fn spec_list_property(
    m: MarketView,
    bal: Map<u64, i128>,
    signers: Seq<u64>,
    seller: u64,
    asset: u64,
    amount: i128,
    price_per_token: i128,
    now: u64,
) -> (MarketView, Map<u64, i128>, Result<u64, Error>) {
    if !signers.contains(seller) {
        (m, bal, Err(Error::NotAuthorized))
    } else if amount <= 0 {
        (m, bal, Err(Error::InvalidListingAmount))
    } else if price_per_token <= 0 {
        (m, bal, Err(Error::InvalidPrice))
    } else if bal[seller] < amount {
        (m, bal, Err(Error::InsufficientBalance))
    } else {
        let id = m.listings.len() as u64;
        let listing = Listing {
            id: id,
            seller: seller,
            token: asset,
            amount: amount,
            price_per_token: price_per_token,
            status: ListingStatus::Active,
            created_at: now,
        };
        (
            MarketView {
                listings: m.listings.push(listing),
                events: m.events.push(
                    MarketEvent::ListingCreated {
                        listing_id: id,
                        seller: seller,
                        token: asset,
                        amount: amount,
                        price: price_per_token,
                    },
                ),
                ..m
            },
            spec_move(bal, seller, m.me, amount),
            Ok(id),
        )
    }
}

/// The trade history after appending `t`: at the cap, the oldest entry is
/// evicted first.
pub open spec fn spec_record_trade(trades: Seq<Trade>, t: Trade) -> Seq<Trade> {
    if trades.len() >= MAX_TRADE_HISTORY {
        trades.drop_first().push(t)
    } else {
        trades.push(t)
    }
}

/// Buy `amount` tokens from a listing: with the buyer's consent, the checks
/// pass in order (positive amount, listing exists and is active, enough
/// remains, the total price is representable, the machine is initialized,
/// the buyer pre-authorized at least the total price of the quote asset to
/// the marketplace, custody holds the tokens). Then the listing shrinks by
/// `amount` — completing at zero — the trade is recorded, and the tokens
/// move from custody to the buyer.
pub open spec fn spec_buy_tokens(
    m: MarketView,
    bal: Map<u64, i128>,
    quote_allowances: Map<(u64, u64), i128>,
    signers: Seq<u64>,
    buyer: u64,
    listing_id: u64,
    amount: i128,
    now: u64,
) -> (MarketView, Map<u64, i128>, Result<(), Error>) {
    if !signers.contains(buyer) {
        (m, bal, Err(Error::NotAuthorized))
    } else if amount <= 0 {
        (m, bal, Err(Error::InvalidAmount))
    } else if listing_id >= m.listings.len() {
        (m, bal, Err(Error::ListingNotFound))
    } else {
        let l = m.listings[listing_id as int];
        if l.status != ListingStatus::Active {
            (m, bal, Err(Error::ListingCancelled))
        } else if amount > l.amount {
            (m, bal, Err(Error::InvalidListingAmount))
        } else if amount * l.price_per_token > i128::MAX || amount * l.price_per_token
            < i128::MIN {
            (m, bal, Err(Error::InvalidAmount))
        } else if !m.initialized {
            (m, bal, Err(Error::NotInitialized))
        } else if quote_allowances[(buyer, m.me)] < amount * l.price_per_token {
            (m, bal, Err(Error::InsufficientBalance))
        } else if bal[m.me] < amount {
            (m, bal, Err(Error::InsufficientBalance))
        } else {
            let total_price = (amount * l.price_per_token) as i128;
            let updated = Listing {
                amount: (l.amount - amount) as i128,
                status: if l.amount == amount {
                    ListingStatus::Completed
                } else {
                    ListingStatus::Active
                },
                ..l
            };
            let t = Trade {
                listing_id: listing_id,
                buyer: buyer,
                seller: l.seller,
                amount: amount,
                price: total_price,
                timestamp: now,
            };
            (
                MarketView {
                    listings: m.listings.update(listing_id as int, updated),
                    trades: spec_record_trade(m.trades, t),
                    events: m.events.push(
                        MarketEvent::TokensPurchased {
                            listing_id: listing_id,
                            buyer: buyer,
                            seller: l.seller,
                            amount: amount,
                            price: total_price,
                        },
                    ),
                    ..m
                },
                spec_move(bal, m.me, buyer, amount),
                Ok(()),
            )
        }
    }
}

/// Cancel an active listing: with the listing's seller's consent, the
/// remaining tokens return from custody to the seller and the listing
/// becomes `Cancelled`.
pub open spec fn spec_cancel_listing(
    m: MarketView,
    bal: Map<u64, i128>,
    signers: Seq<u64>,
    listing_id: u64,
) -> (MarketView, Map<u64, i128>, Result<(), Error>) {
    if listing_id >= m.listings.len() {
        (m, bal, Err(Error::ListingNotFound))
    } else {
        let l = m.listings[listing_id as int];
        if !signers.contains(l.seller) {
            (m, bal, Err(Error::NotAuthorized))
        } else if l.status != ListingStatus::Active {
            (m, bal, Err(Error::ListingCancelled))
        } else if bal[m.me] < l.amount {
            (m, bal, Err(Error::InsufficientBalance))
        } else {
            (
                MarketView {
                    listings: m.listings.update(
                        listing_id as int,
                        Listing { status: ListingStatus::Cancelled, ..l },
                    ),
                    events: m.events.push(
                        MarketEvent::ListingCancelled { listing_id: listing_id, seller: l.seller },
                    ),
                    ..m
                },
                spec_move(bal, m.me, l.seller, l.amount),
                Ok(()),
            )
        }
    }
}

/// The listing stored under `listing_id`, if any.
pub open spec fn spec_get_listing(m: MarketView, listing_id: u64) -> Result<Listing, Error> {
    if listing_id < m.listings.len() {
        Ok(m.listings[listing_id as int])
    } else {
        Err(Error::ListingNotFound)
    }
}

/// The active listings for `asset`, in listing order.
pub open spec fn spec_active_listings(s: Seq<Listing>, asset: u64) -> Seq<Listing>
    decreases s.len(),
{
    if s.len() == 0 {
        Seq::empty()
    } else {
        let rest = spec_active_listings(s.drop_first(), asset);
        if s.first().token == asset && s.first().status == ListingStatus::Active {
            seq![s.first()] + rest
        } else {
            rest
        }
    }
}

/// A listing's contribution to the market capitalization: its remaining
/// amount times its unit price, or zero when that product is not
/// representable.
pub open spec fn spec_listing_value(l: Listing) -> i128 {
    if i128::MIN <= l.amount * l.price_per_token && l.amount * l.price_per_token <= i128::MAX {
        (l.amount * l.price_per_token) as i128
    } else {
        0
    }
}

/// The market-cap accumulation as the scan performs it, front to back from
/// `acc`: each active listing adds its value, and an addition that would
/// not be representable leaves the accumulator as it was.
pub open spec fn spec_market_cap_fold(s: Seq<Listing>, acc: i128) -> i128
    decreases s.len(),
{
    if s.len() == 0 {
        acc
    } else {
        let next = if s.first().status == ListingStatus::Active {
            if i128::MIN <= acc + spec_listing_value(s.first()) && acc + spec_listing_value(
                s.first(),
            ) <= i128::MAX {
                (acc + spec_listing_value(s.first())) as i128
            } else {
                acc
            }
        } else {
            acc
        };
        spec_market_cap_fold(s.drop_first(), next)
    }
}

/// The market capitalization of a listing store.
pub open spec fn spec_market_cap(s: Seq<Listing>) -> i128 {
    spec_market_cap_fold(s, 0)
}

/// The mathematical sum of the values of all active listings, an
/// unrepresentable product counting as zero.
pub open spec fn spec_sum_active_value(s: Seq<Listing>) -> int
    decreases s.len(),
{
    if s.len() == 0 {
        0
    } else {
        (if s.first().status == ListingStatus::Active {
            spec_listing_value(s.first()) as int
        } else {
            0
        }) + spec_sum_active_value(s.drop_first())
    }
}

/// An active listing's value is never negative.
pub proof fn lemma_listing_value_nonneg(l: Listing)
    requires
        l.amount >= 0,
        l.price_per_token > 0,
    ensures
        spec_listing_value(l) >= 0,
{
    assert(l.amount * l.price_per_token >= 0) by (nonlinear_arith)
        requires
            l.amount >= 0,
            l.price_per_token > 0,
    ;
}

/// With non-negative amounts and positive prices, the mathematical market
/// value is never negative.
pub proof fn lemma_sum_active_value_nonneg(s: Seq<Listing>)
    requires
        forall|i: int|
            0 <= i < s.len() ==> (#[trigger] s[i]).amount >= 0 && s[i].price_per_token > 0,
    ensures
        spec_sum_active_value(s) >= 0,
    decreases s.len(),
{
    if s.len() > 0 {
        lemma_listing_value_nonneg(s.first());
        assert(s.first() == s[0]);
        assert forall|i: int|
            0 <= i < s.drop_first().len() implies (#[trigger] s.drop_first()[i]).amount >= 0
            && s.drop_first()[i].price_per_token > 0 by {
            assert(s.drop_first()[i] == s[i + 1]);
        }
        lemma_sum_active_value_nonneg(s.drop_first());
    }
}

/// The scan's accumulation never skips while the mathematical sum stays
/// representable from `acc` on.
proof fn lemma_market_cap_fold_is_sum(s: Seq<Listing>, acc: i128)
    requires
        forall|i: int|
            0 <= i < s.len() ==> (#[trigger] s[i]).amount >= 0 && s[i].price_per_token > 0,
        acc >= 0,
        acc + spec_sum_active_value(s) <= i128::MAX,
    ensures
        spec_market_cap_fold(s, acc) == acc + spec_sum_active_value(s),
    decreases s.len(),
{
    if s.len() > 0 {
        assert(s.first() == s[0]);
        lemma_listing_value_nonneg(s.first());
        assert forall|i: int|
            0 <= i < s.drop_first().len() implies (#[trigger] s.drop_first()[i]).amount >= 0
            && s.drop_first()[i].price_per_token > 0 by {
            assert(s.drop_first()[i] == s[i + 1]);
        }
        lemma_sum_active_value_nonneg(s.drop_first());
        if s.first().status == ListingStatus::Active {
            lemma_market_cap_fold_is_sum(
                s.drop_first(),
                (acc + spec_listing_value(s.first())) as i128,
            );
        } else {
            lemma_market_cap_fold_is_sum(s.drop_first(), acc);
        }
    }
}

/// Law: whenever the mathematical market value is representable, the
/// market capitalization equals exactly the sum of `amount * pricePerUnit`
/// over the active listings, a listing with an unrepresentable product
/// contributing zero rather than aborting the aggregate.
pub proof fn lemma_market_cap_is_sum(s: Seq<Listing>)
    requires
        forall|i: int|
            0 <= i < s.len() ==> (#[trigger] s[i]).amount >= 0 && s[i].price_per_token > 0,
        spec_sum_active_value(s) <= i128::MAX,
    ensures
        spec_market_cap(s) == spec_sum_active_value(s),
{
    lemma_market_cap_fold_is_sum(s, 0);
}

/// Law: a purchase shrinks its listing by exactly the bought quantity. The
/// remaining amount never goes negative, the listing completes exactly when
/// it reaches zero, and otherwise stays active.
pub proof fn lemma_buy_decrements_listing(
    m: MarketView,
    bal: Map<u64, i128>,
    quote_allowances: Map<(u64, u64), i128>,
    signers: Seq<u64>,
    buyer: u64,
    listing_id: u64,
    amount: i128,
    now: u64,
)
    ensures
        ({
            let step = spec_buy_tokens(
                m,
                bal,
                quote_allowances,
                signers,
                buyer,
                listing_id,
                amount,
                now,
            );
            step.2 is Ok ==> {
                let before = m.listings[listing_id as int];
                let after = step.0.listings[listing_id as int];
                &&& after.amount == before.amount - amount
                &&& after.amount >= 0
                &&& (after.amount == 0 <==> after.status == ListingStatus::Completed)
                &&& (after.amount != 0 ==> after.status == ListingStatus::Active)
            }
        }),
{
}

/// Law: the trade history never exceeds its cap, and a purchase arriving
/// at the cap evicts exactly the oldest trade, keeping the history at the
/// cap with the new trade last.
pub proof fn lemma_trade_history_bounded(
    m: MarketView,
    bal: Map<u64, i128>,
    quote_allowances: Map<(u64, u64), i128>,
    signers: Seq<u64>,
    buyer: u64,
    listing_id: u64,
    amount: i128,
    now: u64,
)
    requires
        m.trades.len() <= MAX_TRADE_HISTORY,
    ensures
        ({
            let step = spec_buy_tokens(
                m,
                bal,
                quote_allowances,
                signers,
                buyer,
                listing_id,
                amount,
                now,
            );
            &&& step.0.trades.len() <= MAX_TRADE_HISTORY
            &&& (step.2 is Ok && m.trades.len() == MAX_TRADE_HISTORY ==> step.0.trades.len()
                == MAX_TRADE_HISTORY && step.0.trades.drop_last() == m.trades.drop_first()
                && step.0.trades.last().listing_id == listing_id && step.0.trades.last().amount
                == amount)
        }),
{
    let step = spec_buy_tokens(m, bal, quote_allowances, signers, buyer, listing_id, amount, now);
    if step.2 is Ok && m.trades.len() >= MAX_TRADE_HISTORY {
        assert(step.0.trades.drop_last() =~= m.trades.drop_first());
    }
}

/// Law: `Completed` and `Cancelled` are terminal. Once a listing has left
/// `Active`, every further purchase or cancellation fails, every balance
/// and every listing stays as it was, and with the needed consent the
/// error is exactly `ListingCancelled`.
pub proof fn lemma_terminal_listing_is_final(
    m: MarketView,
    bal: Map<u64, i128>,
    quote_allowances: Map<(u64, u64), i128>,
    signers: Seq<u64>,
    buyer: u64,
    listing_id: u64,
    amount: i128,
    now: u64,
)
    requires
        listing_id < m.listings.len(),
        m.listings[listing_id as int].status != ListingStatus::Active,
    ensures
        ({
            let step = spec_buy_tokens(
                m,
                bal,
                quote_allowances,
                signers,
                buyer,
                listing_id,
                amount,
                now,
            );
            &&& step.0 == m
            &&& step.1 == bal
            &&& step.2 is Err
            &&& signers.contains(buyer) && amount > 0 ==> step.2 == Err::<(), Error>(
                Error::ListingCancelled,
            )
        }),
        ({
            let step = spec_cancel_listing(m, bal, signers, listing_id);
            &&& step.0 == m
            &&& step.1 == bal
            &&& step.2 is Err
            &&& signers.contains(m.listings[listing_id as int].seller) ==> step.2 == Err::<
                (),
                Error,
            >(Error::ListingCancelled)
        }),
{
}

/// Marketplace listing and trade engine. `me` is the machine's own
/// principal, holding listed tokens in custody.
#[derive(Debug)]
pub struct MarketplaceContract {
    pub me: u64,
    pub initialized: bool,
    pub admin: u64,
    pub escrow_contract: u64,
    pub registry_contract: u64,
    pub listings: Vec<Listing>,
    pub trades: Vec<Trade>,
    pub events: Vec<MarketEvent>,
}

impl View for MarketplaceContract {
    type V = MarketView;

    open spec fn view(&self) -> MarketView {
        MarketView {
            me: self.me,
            initialized: self.initialized,
            admin: self.admin,
            escrow_contract: self.escrow_contract,
            registry_contract: self.registry_contract,
            listings: self.listings@,
            trades: self.trades@,
            events: self.events@,
        }
    }
}

impl MarketplaceContract {
    /// A fresh, uninitialized machine whose custody account is `me`.
    pub fn new(me: u64) -> (r: MarketplaceContract)
        ensures
            r@ == (MarketView {
                me: me,
                initialized: false,
                admin: 0,
                escrow_contract: 0,
                registry_contract: 0,
                listings: Seq::empty(),
                trades: Seq::empty(),
                events: Seq::empty(),
            }),
            r@.wf(),
    {
        let r = MarketplaceContract {
            me,
            initialized: false,
            admin: 0,
            escrow_contract: 0,
            registry_contract: 0,
            listings: Vec::new(),
            trades: Vec::new(),
            events: Vec::new(),
        };
        proof {
            assert(r@ =~= (MarketView {
                me: me,
                initialized: false,
                admin: 0,
                escrow_contract: 0,
                registry_contract: 0,
                listings: Seq::empty(),
                trades: Seq::empty(),
                events: Seq::empty(),
            }));
        }
        r
    }

    /// One-time setup of admin and of the escrow and registry contract
    /// principals; requires the admin's consent and fails with
    /// `AlreadyInitialized` if called twice.
    pub fn initialize(
        &mut self,
        auth: &AuthContext,
        admin: u64,
        escrow_contract: u64,
        registry_contract: u64,
    ) -> (r: Result<(), Error>)
        requires
            old(self)@.wf(),
        ensures
            final(self)@.wf(),
            final(self)@ == spec_initialize(
                old(self)@,
                auth@,
                admin,
                escrow_contract,
                registry_contract,
            ).0,
            r == spec_initialize(old(self)@, auth@, admin, escrow_contract, registry_contract).1,
    {
        if self.initialized {
            return Err(Error::AlreadyInitialized);
        }
        if !auth.allows(admin) {
            return Err(Error::NotAuthorized);
        }
        self.initialized = true;
        self.admin = admin;
        self.escrow_contract = escrow_contract;
        self.registry_contract = registry_contract;
        proof {
            assert(self@ =~= spec_initialize(
                old(self)@,
                auth@,
                admin,
                escrow_contract,
                registry_contract,
            ).0);
        }
        Ok(())
    }

    /// List `amount` of the asset held by `token` for sale at
    /// `price_per_token` each, taking the tokens into marketplace custody.
    /// Returns the fresh listing's id.
    pub fn list_property(
        &mut self,
        token: &mut UsdcMockToken,
        auth: &AuthContext,
        seller: u64,
        amount: i128,
        price_per_token: i128,
        now: u64,
    ) -> (r: Result<u64, Error>)
        requires
            old(self)@.wf(),
            old(token).wf(),
        ensures
            final(self)@.wf(),
            final(token).wf(),
            ({
                let step = spec_list_property(
                    old(self)@,
                    old(token)@.balances,
                    auth@,
                    seller,
                    old(token).asset,
                    amount,
                    price_per_token,
                    now,
                );
                &&& final(self)@ == step.0
                &&& final(token)@ == (TokenView { balances: step.1, ..old(token)@ })
                &&& r == step.2
            }),
    {
        if !auth.allows(seller) {
            return Err(Error::NotAuthorized);
        }
        if amount <= 0 {
            return Err(Error::InvalidListingAmount);
        }
        if price_per_token <= 0 {
            return Err(Error::InvalidPrice);
        }
        if token.balance(seller) < amount {
            return Err(Error::InsufficientBalance);
        }
        let id = self.listings.len() as u64;
        let listing = Listing {
            id,
            seller,
            token: token.asset,
            amount,
            price_per_token,
            status: ListingStatus::Active,
            created_at: now,
        };
        let tr = token.transfer(seller, self.me, amount);
        proof {
            assert(tr is Ok);
        }
        self.listings.push(listing);
        self.events.push(
            MarketEvent::ListingCreated {
                listing_id: id,
                seller,
                token: token.asset,
                amount,
                price: price_per_token,
            },
        );
        proof {
            let step = spec_list_property(
                old(self)@,
                old(token)@.balances,
                auth@,
                seller,
                old(token).asset,
                amount,
                price_per_token,
                now,
            );
            assert(self@ =~= step.0);
            assert(token@ =~= (TokenView { balances: step.1, ..old(token)@ }));
        }
        Ok(id)
    }

    /// Buy `amount` tokens from the listing stored under `listing_id`,
    /// paying with a pre-authorized allowance of `quote_token` and
    /// receiving the tokens from marketplace custody.
    pub fn buy_tokens(
        &mut self,
        token: &mut UsdcMockToken,
        quote_token: &UsdcMockToken,
        auth: &AuthContext,
        buyer: u64,
        listing_id: u64,
        amount: i128,
        now: u64,
    ) -> (r: Result<(), Error>)
        requires
            old(self)@.wf(),
            old(token).wf(),
            listing_id < old(self).listings@.len() ==> old(token).asset == old(
                self,
            ).listings@[listing_id as int].token,
        ensures
            final(self)@.wf(),
            final(token).wf(),
            ({
                let step = spec_buy_tokens(
                    old(self)@,
                    old(token)@.balances,
                    quote_token@.allowances,
                    auth@,
                    buyer,
                    listing_id,
                    amount,
                    now,
                );
                &&& final(self)@ == step.0
                &&& final(token)@ == (TokenView { balances: step.1, ..old(token)@ })
                &&& r == step.2
            }),
    {
        if !auth.allows(buyer) {
            return Err(Error::NotAuthorized);
        }
        if amount <= 0 {
            return Err(Error::InvalidAmount);
        }
        if listing_id >= self.listings.len() as u64 {
            return Err(Error::ListingNotFound);
        }
        let i = listing_id as usize;
        let l = self.listings[i];
        if l.status != ListingStatus::Active {
            return Err(Error::ListingCancelled);
        }
        if amount > l.amount {
            return Err(Error::InvalidListingAmount);
        }
        let total_price = match amount.checked_mul(l.price_per_token) {
            Some(v) => v,
            None => {
                return Err(Error::InvalidAmount);
            },
        };
        if !self.initialized {
            return Err(Error::NotInitialized);
        }
        if quote_token.allowance(buyer, self.me) < total_price {
            return Err(Error::InsufficientBalance);
        }
        if token.balance(self.me) < amount {
            return Err(Error::InsufficientBalance);
        }
        let updated = Listing {
            amount: l.amount - amount,
            status: if l.amount == amount {
                ListingStatus::Completed
            } else {
                ListingStatus::Active
            },
            ..l
        };
        self.listings[i] = updated;
        let t = Trade {
            listing_id,
            buyer,
            seller: l.seller,
            amount,
            price: total_price,
            timestamp: now,
        };
        if self.trades.len() >= MAX_TRADE_HISTORY {
            let _oldest = self.trades.remove(0);
        }
        self.trades.push(t);
        let tr = token.transfer(self.me, buyer, amount);
        proof {
            assert(tr is Ok);
        }
        self.events.push(
            MarketEvent::TokensPurchased {
                listing_id,
                buyer,
                seller: l.seller,
                amount,
                price: total_price,
            },
        );
        proof {
            let step = spec_buy_tokens(
                old(self)@,
                old(token)@.balances,
                quote_token@.allowances,
                auth@,
                buyer,
                listing_id,
                amount,
                now,
            );
            assert(self.trades@ =~= spec_record_trade(old(self).trades@, t));
            assert(self@ =~= step.0);
            assert(token@ =~= (TokenView { balances: step.1, ..old(token)@ }));
        }
        Ok(())
    }

    /// Cancel the listing stored under `listing_id`, returning its whole
    /// remaining amount from custody to the seller.
    pub fn cancel_listing(
        &mut self,
        token: &mut UsdcMockToken,
        auth: &AuthContext,
        listing_id: u64,
    ) -> (r: Result<(), Error>)
        requires
            old(self)@.wf(),
            old(token).wf(),
            listing_id < old(self).listings@.len() ==> old(token).asset == old(
                self,
            ).listings@[listing_id as int].token,
        ensures
            final(self)@.wf(),
            final(token).wf(),
            ({
                let step = spec_cancel_listing(old(self)@, old(token)@.balances, auth@, listing_id);
                &&& final(self)@ == step.0
                &&& final(token)@ == (TokenView { balances: step.1, ..old(token)@ })
                &&& r == step.2
            }),
    {
        if listing_id >= self.listings.len() as u64 {
            return Err(Error::ListingNotFound);
        }
        let i = listing_id as usize;
        let l = self.listings[i];
        if !auth.allows(l.seller) {
            return Err(Error::NotAuthorized);
        }
        if l.status != ListingStatus::Active {
            return Err(Error::ListingCancelled);
        }
        if token.balance(self.me) < l.amount {
            return Err(Error::InsufficientBalance);
        }
        self.listings[i] = Listing { status: ListingStatus::Cancelled, ..l };
        let tr = token.transfer(self.me, l.seller, l.amount);
        proof {
            assert(tr is Ok);
        }
        self.events.push(MarketEvent::ListingCancelled { listing_id, seller: l.seller });
        proof {
            let step = spec_cancel_listing(old(self)@, old(token)@.balances, auth@, listing_id);
            assert(self@ =~= step.0);
            assert(token@ =~= (TokenView { balances: step.1, ..old(token)@ }));
        }
        Ok(())
    }

    /// The listing stored under `listing_id`.
    pub fn get_listing(&self, listing_id: u64) -> (r: Result<Listing, Error>)
        ensures
            r == spec_get_listing(self@, listing_id),
    {
        if listing_id < self.listings.len() as u64 {
            Ok(self.listings[listing_id as usize])
        } else {
            Err(Error::ListingNotFound)
        }
    }

    /// All active listings for `asset`, scanning the whole store in listing
    /// order (a read-only convenience, linear in the number of listings).
    pub fn get_listings(&self, asset: u64) -> (r: Vec<Listing>)
        ensures
            r@ == spec_active_listings(self@.listings, asset),
    {
        let n = self.listings.len();
        let mut out: Vec<Listing> = Vec::new();
        let mut i: usize = 0;
        proof {
            assert(self.listings@.skip(0) =~= self.listings@);
            assert(out@ + spec_active_listings(self.listings@, asset) =~= spec_active_listings(
                self.listings@,
                asset,
            ));
        }
        while i < n
            invariant
                i <= n,
                n == self.listings@.len(),
                spec_active_listings(self.listings@, asset) == out@ + spec_active_listings(
                    self.listings@.skip(i as int),
                    asset,
                ),
            decreases n - i,
        {
            let l = self.listings[i];
            proof {
                assert(self.listings@.skip(i as int).first() == self.listings@[i as int]);
                assert(self.listings@.skip(i as int).drop_first() =~= self.listings@.skip(
                    i as int + 1,
                ));
            }
            if l.token == asset && l.status == ListingStatus::Active {
                let ghost out0 = out@;
                let ghost rest = spec_active_listings(self.listings@.skip(i as int + 1), asset);
                out.push(l);
                proof {
                    assert(out@ =~= out0 + seq![l]);
                    assert(out0 + (seq![l] + rest) =~= (out0 + seq![l]) + rest);
                }
            }
            i = i + 1;
        }
        proof {
            assert(self.listings@.skip(n as int) =~= Seq::<Listing>::empty());
            assert(out@ + Seq::<Listing>::empty() =~= out@);
        }
        out
    }

    /// The retained trade history, oldest first. The history is kept as
    /// one sequence, so the whole of it is returned whatever `_asset` is
    /// asked about.
    pub fn get_price_history(&self, _asset: u64) -> (r: Vec<Trade>)
        ensures
            r@ == self@.trades,
    {
        let n = self.trades.len();
        let mut out: Vec<Trade> = Vec::new();
        let mut i: usize = 0;
        while i < n
            invariant
                i <= n,
                n == self.trades@.len(),
                out@ == self.trades@.take(i as int),
            decreases n - i,
        {
            out.push(self.trades[i]);
            proof {
                assert(out@ =~= self.trades@.take(i as int + 1));
            }
            i = i + 1;
        }
        proof {
            assert(self.trades@.take(n as int) =~= self.trades@);
        }
        out
    }

    /// The market capitalization: the sum over active listings of remaining
    /// amount times unit price, a listing whose product is not
    /// representable contributing zero, accumulated without ever wrapping.
    pub fn calculate_market_cap(&self) -> (r: i128)
        ensures
            r == spec_market_cap(self@.listings),
    {
        let n = self.listings.len();
        let mut total: i128 = 0;
        let mut i: usize = 0;
        proof {
            assert(self.listings@.skip(0) =~= self.listings@);
        }
        while i < n
            invariant
                i <= n,
                n == self.listings@.len(),
                spec_market_cap(self@.listings) == spec_market_cap_fold(
                    self.listings@.skip(i as int),
                    total,
                ),
            decreases n - i,
        {
            let l = self.listings[i];
            proof {
                assert(self.listings@.skip(i as int).first() == self.listings@[i as int]);
                assert(self.listings@.skip(i as int).drop_first() =~= self.listings@.skip(
                    i as int + 1,
                ));
            }
            if l.status == ListingStatus::Active {
                let value = match l.amount.checked_mul(l.price_per_token) {
                    Some(v) => v,
                    None => 0,
                };
                total = match total.checked_add(value) {
                    Some(v) => v,
                    None => total,
                };
            }
            i = i + 1;
        }
        proof {
            assert(self.listings@.skip(n as int) =~= Seq::<Listing>::empty());
        }
        total
    }

    /// The admin chosen at initialization.
    pub fn admin(&self) -> (r: u64)
        requires
            self@.initialized,
        ensures
            r == self@.admin,
    {
        self.admin
    }

    /// The escrow contract principal chosen at initialization.
    pub fn escrow_contract(&self) -> (r: u64)
        requires
            self@.initialized,
        ensures
            r == self@.escrow_contract,
    {
        self.escrow_contract
    }

    /// The registry contract principal chosen at initialization.
    pub fn registry_contract(&self) -> (r: u64)
        requires
            self@.initialized,
        ensures
            r == self@.registry_contract,
    {
        self.registry_contract
    }

    /// Route an instant sale through the external exchange router instead
    /// of listing: with the seller's consent, build the direct two-hop
    /// request for the router.
    pub fn swap_tokens_for_usdc(
        &self,
        auth: &AuthContext,
        seller: u64,
        property_token: u64,
        usdc_token: u64,
        amount_in: i128,
        min_usdc_out: i128,
        now: u64,
    ) -> (r: Result<SwapRequest, Error>)
        ensures
            r is Ok <==> auth@.contains(seller) && amount_in > 0 && min_usdc_out >= 0 && now
                + crate::swap::SWAP_DEADLINE_DELAY <= u64::MAX,
            !auth@.contains(seller) ==> r == Err::<SwapRequest, Error>(Error::NotAuthorized),
            auth@.contains(seller) && r is Err ==> r == Err::<SwapRequest, Error>(
                Error::InvalidAmount,
            ),
            r matches Ok(req) ==> req.amount_in == amount_in && req.amount_out_min == min_usdc_out
                && req.path@ == seq![property_token, usdc_token] && req.to == seller
                && req.deadline == now + crate::swap::SWAP_DEADLINE_DELAY,
    {
        if !auth.allows(seller) {
            return Err(Error::NotAuthorized);
        }
        crate::swap::swap_property_token_for_usdc(
            seller,
            property_token,
            usdc_token,
            amount_in,
            min_usdc_out,
            now,
        )
    }

    /// As [`Self::swap_tokens_for_usdc`], but routed through a bridging
    /// asset for pairs with no direct liquidity pool.
    pub fn swap_tokens_for_usdc_via_xlm(
        &self,
        auth: &AuthContext,
        seller: u64,
        property_token: u64,
        xlm_token: u64,
        usdc_token: u64,
        amount_in: i128,
        min_usdc_out: i128,
        now: u64,
    ) -> (r: Result<SwapRequest, Error>)
        ensures
            r is Ok <==> auth@.contains(seller) && amount_in > 0 && min_usdc_out >= 0 && now
                + crate::swap::SWAP_DEADLINE_DELAY <= u64::MAX,
            !auth@.contains(seller) ==> r == Err::<SwapRequest, Error>(Error::NotAuthorized),
            auth@.contains(seller) && r is Err ==> r == Err::<SwapRequest, Error>(
                Error::InvalidAmount,
            ),
            r matches Ok(req) ==> req.amount_in == amount_in && req.amount_out_min == min_usdc_out
                && req.path@ == seq![property_token, xlm_token, usdc_token] && req.to == seller
                && req.deadline == now + crate::swap::SWAP_DEADLINE_DELAY,
    {
        if !auth.allows(seller) {
            return Err(Error::NotAuthorized);
        }
        crate::swap::swap_property_token_for_usdc_via_xlm(
            seller,
            property_token,
            xlm_token,
            usdc_token,
            amount_in,
            min_usdc_out,
            now,
        )
    }

    /// Build the read-only quote query for the router; no consent and no
    /// state are needed.
    pub fn get_swap_quote(
        &self,
        property_token: u64,
        usdc_token: u64,
        amount_in: i128,
    ) -> (r: Result<QuoteRequest, Error>)
        ensures
            r is Ok <==> amount_in > 0,
            r is Err ==> r == Err::<QuoteRequest, Error>(Error::InvalidAmount),
            r matches Ok(req) ==> req.amount_in == amount_in && req.path@ == seq![
                property_token,
                usdc_token,
            ],
    {
        crate::swap::get_swap_quote(property_token, usdc_token, amount_in)
    }
}

} // verus!
