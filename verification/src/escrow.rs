//! Escrow fund-custody state machine.
//!
//! [`EscrowContract`] owns one record per escrow id and holds custody of
//! locked funds on the custody-asset ledger. A record is created `Locked` by
//! [`EscrowContract::lock_funds`] and moves exactly once to a terminal
//! status: `Released` (funds to the seller) or `Refunded` (funds back to the
//! buyer). Ids come from a strictly increasing counter — the next record's
//! id is the number of records ever created — so an id is never reused.
//!
//! Every operation is specified by a transition function over the
//! mathematical view of the machine and of the custody ledger's balance
//! map; the executable method returns exactly what the transition says and
//! leaves everything unchanged on every error. Effects are committed to the
//! record store before the balance move, and the move itself is pre-checked
//! so that a failing transfer can never leave a half-applied state.

use vstd::prelude::*;

use crate::auth::AuthContext;
use crate::errors::Error;
use crate::token::{spec_move, TokenView, UsdcMockToken};

verus! {

/// Custody status of one escrow record.
#[derive(Clone, Copy, Debug, PartialEq, Eq, Structural)]
pub enum EscrowStatus {
    Locked,
    Released,
    Refunded,
}

/// One escrow record; its id is its position in the record store.
#[derive(Clone, Copy, Debug, PartialEq, Eq, Structural)]
pub struct EscrowData {
    pub buyer: u64,
    pub seller: u64,
    pub amount: i128,
    pub token: u64,
    pub listing_id: u64,
    pub status: EscrowStatus,
    pub created_at: u64,
    pub timeout_at: u64,
}

/// Events the escrow machine emits, one per committed state transition.
#[derive(Clone, Copy, Debug, PartialEq, Eq, Structural)]
pub enum EscrowEvent {
    FundsLocked { escrow_id: u64, buyer: u64, amount: i128 },
    FundsReleased { escrow_id: u64, seller: u64, amount: i128 },
    FundsRefunded { escrow_id: u64, buyer: u64, amount: i128 },
}

/// The mathematical state of the escrow machine.
#[verifier::ext_equal]
pub struct EscrowView {
    pub custody: u64,
    pub initialized: bool,
    pub admin: u64,
    pub usdc_token: u64,
    pub marketplace: u64,
    pub records: Seq<EscrowData>,
    pub events: Seq<EscrowEvent>,
}

impl EscrowView {
    /// Every record holds a positive amount of the custody asset and a
    /// timeout no earlier than its creation; records exist only after
    /// initialization.
    pub open spec fn wf(self) -> bool {
        &&& !self.initialized ==> self.records.len() == 0
        &&& forall|i: int|
            0 <= i < self.records.len() ==> #[trigger] self.records[i].amount > 0
                && self.records[i].timeout_at >= self.records[i].created_at
                && self.records[i].token == self.usdc_token
    }
}

/// One-time setup: record the admin, the custody asset and the marketplace
/// principal; fails if repeated or unauthorized.
pub open spec fn spec_initialize(
    e: EscrowView,
    signers: Seq<u64>,
    admin: u64,
    usdc_token: u64,
    marketplace: u64,
) -> (EscrowView, Result<(), Error>) {
    if e.initialized {
        (e, Err(Error::AlreadyInitialized))
    } else if !signers.contains(admin) {
        (e, Err(Error::NotAuthorized))
    } else {
        (
            EscrowView {
                initialized: true,
                admin: admin,
                usdc_token: usdc_token,
                marketplace: marketplace,
                ..e
            },
            Ok(()),
        )
    }
}

/// Lock `amount` of the custody asset for `listing_id`: with the buyer's
/// consent and a positive amount, a fresh record is stored `Locked` and the
/// amount moves from the buyer into custody.
pub open spec fn spec_lock_funds(
    e: EscrowView,
    bal: Map<u64, i128>,
    signers: Seq<u64>,
    buyer: u64,
    seller: u64,
    amount: i128,
    listing_id: u64,
    timeout_duration: u64,
    now: u64,
) -> (EscrowView, Map<u64, i128>, Result<u64, Error>) {
    if !signers.contains(buyer) {
        (e, bal, Err(Error::NotAuthorized))
    } else if amount <= 0 {
        (e, bal, Err(Error::InvalidAmount))
    } else if !e.initialized {
        (e, bal, Err(Error::NotInitialized))
    } else if bal[buyer] < amount {
        (e, bal, Err(Error::InsufficientBalance))
    } else {
        let id = e.records.len() as u64;
        let rec = EscrowData {
            buyer: buyer,
            seller: seller,
            amount: amount,
            token: e.usdc_token,
            listing_id: listing_id,
            status: EscrowStatus::Locked,
            created_at: now,
            timeout_at: (now + timeout_duration) as u64,
        };
        (
            EscrowView {
                records: e.records.push(rec),
                events: e.events.push(
                    EscrowEvent::FundsLocked { escrow_id: id, buyer: buyer, amount: amount },
                ),
                ..e
            },
            spec_move(bal, buyer, e.custody, amount),
            Ok(id),
        )
    }
}

/// Release a locked record to its seller: with the admin's consent, the
/// record becomes `Released` and its amount moves from custody to the
/// seller. Terminal records are rejected with `EscrowNotLocked`.
pub open spec fn spec_release_to_seller(
    e: EscrowView,
    bal: Map<u64, i128>,
    signers: Seq<u64>,
    escrow_id: u64,
) -> (EscrowView, Map<u64, i128>, Result<(), Error>) {
    if !e.initialized {
        (e, bal, Err(Error::NotInitialized))
    } else if !signers.contains(e.admin) {
        (e, bal, Err(Error::NotAuthorized))
    } else if escrow_id >= e.records.len() {
        (e, bal, Err(Error::EscrowNotFound))
    } else {
        let rec = e.records[escrow_id as int];
        if rec.status != EscrowStatus::Locked {
            (e, bal, Err(Error::EscrowNotLocked))
        } else if bal[e.custody] < rec.amount {
            (e, bal, Err(Error::InsufficientBalance))
        } else {
            (
                EscrowView {
                    records: e.records.update(
                        escrow_id as int,
                        EscrowData { status: EscrowStatus::Released, ..rec },
                    ),
                    events: e.events.push(
                        EscrowEvent::FundsReleased {
                            escrow_id: escrow_id,
                            seller: rec.seller,
                            amount: rec.amount,
                        },
                    ),
                    ..e
                },
                spec_move(bal, e.custody, rec.seller, rec.amount),
                Ok(()),
            )
        }
    }
}

/// Refund a locked record to its buyer: before the record's timeout only
/// the admin's consent suffices, from the timeout on the buyer's own
/// consent does. The record becomes `Refunded` and its amount moves from
/// custody back to the buyer.
pub open spec fn spec_refund_to_buyer(
    e: EscrowView,
    bal: Map<u64, i128>,
    signers: Seq<u64>,
    escrow_id: u64,
    now: u64,
) -> (EscrowView, Map<u64, i128>, Result<(), Error>) {
    if escrow_id >= e.records.len() {
        (e, bal, Err(Error::EscrowNotFound))
    } else if !e.initialized {
        (e, bal, Err(Error::NotInitialized))
    } else {
        let rec = e.records[escrow_id as int];
        let authorized = if now < rec.timeout_at {
            signers.contains(e.admin)
        } else {
            signers.contains(rec.buyer)
        };
        if !authorized {
            (e, bal, Err(Error::NotAuthorized))
        } else if rec.status != EscrowStatus::Locked {
            (e, bal, Err(Error::EscrowNotLocked))
        } else if bal[e.custody] < rec.amount {
            (e, bal, Err(Error::InsufficientBalance))
        } else {
            (
                EscrowView {
                    records: e.records.update(
                        escrow_id as int,
                        EscrowData { status: EscrowStatus::Refunded, ..rec },
                    ),
                    events: e.events.push(
                        EscrowEvent::FundsRefunded {
                            escrow_id: escrow_id,
                            buyer: rec.buyer,
                            amount: rec.amount,
                        },
                    ),
                    ..e
                },
                spec_move(bal, e.custody, rec.buyer, rec.amount),
                Ok(()),
            )
        }
    }
}

/// The record stored under `escrow_id`, if any.
pub open spec fn spec_get_escrow_data(e: EscrowView, escrow_id: u64) -> Result<EscrowData, Error> {
    if escrow_id < e.records.len() {
        Ok(e.records[escrow_id as int])
    } else {
        Err(Error::EscrowNotFound)
    }
}

/// Law: a successful fund lock moves exactly `amount` from the buyer into
/// custody and touches no other balance, and a non-positive amount is
/// always rejected with every balance unchanged.
pub proof fn lemma_lock_funds_moves_funds(
    e: EscrowView,
    bal: Map<u64, i128>,
    signers: Seq<u64>,
    buyer: u64,
    seller: u64,
    amount: i128,
    listing_id: u64,
    timeout_duration: u64,
    now: u64,
)
    requires
        bal[e.custody] >= 0,
        bal[e.custody] + amount <= i128::MAX,
    ensures
        ({
            let step = spec_lock_funds(
                e,
                bal,
                signers,
                buyer,
                seller,
                amount,
                listing_id,
                timeout_duration,
                now,
            );
            &&& step.2 is Ok && buyer != e.custody ==> step.1[e.custody] == bal[e.custody]
                + amount && step.1[buyer] == bal[buyer] - amount && (forall|p: u64|
                p != buyer && p != e.custody ==> step.1[p] == bal[p])
            &&& amount <= 0 ==> step.2 is Err && step.1 == bal && step.0 == e
        }),
{
}

/// Law: escrow status is monotonic. Once a record has left `Locked`, every
/// further release or refund fails, every balance and every record stays as
/// it was, and with the needed consent the error is exactly
/// `EscrowNotLocked`.
pub proof fn lemma_terminal_status_is_final(
    e: EscrowView,
    bal: Map<u64, i128>,
    signers: Seq<u64>,
    escrow_id: u64,
    now: u64,
)
    requires
        escrow_id < e.records.len(),
        e.records[escrow_id as int].status != EscrowStatus::Locked,
    ensures
        ({
            let step = spec_release_to_seller(e, bal, signers, escrow_id);
            &&& step.0 == e
            &&& step.1 == bal
            &&& step.2 is Err
            &&& e.initialized && signers.contains(e.admin) ==> step.2 == Err::<(), Error>(
                Error::EscrowNotLocked,
            )
        }),
        ({
            let step = spec_refund_to_buyer(e, bal, signers, escrow_id, now);
            let rec = e.records[escrow_id as int];
            let consent = if now < rec.timeout_at {
                signers.contains(e.admin)
            } else {
                signers.contains(rec.buyer)
            };
            &&& step.0 == e
            &&& step.1 == bal
            &&& step.2 is Err
            &&& e.initialized && consent ==> step.2 == Err::<(), Error>(Error::EscrowNotLocked)
        }),
{
}

/// Law: who may refund. For a locked, funded record, a refund before the
/// record's timeout succeeds exactly with the admin's consent; from the
/// timeout on it succeeds exactly with the buyer's own consent.
pub proof fn lemma_refund_authorization(
    e: EscrowView,
    bal: Map<u64, i128>,
    signers: Seq<u64>,
    escrow_id: u64,
    now: u64,
)
    requires
        e.initialized,
        escrow_id < e.records.len(),
        e.records[escrow_id as int].status == EscrowStatus::Locked,
        bal[e.custody] >= e.records[escrow_id as int].amount,
    ensures
        ({
            let step = spec_refund_to_buyer(e, bal, signers, escrow_id, now);
            let rec = e.records[escrow_id as int];
            &&& now < rec.timeout_at ==> (step.2 is Ok <==> signers.contains(e.admin))
            &&& now >= rec.timeout_at ==> (step.2 is Ok <==> signers.contains(rec.buyer))
        }),
{
}

/// Law: reading a record straight after locking it returns exactly the
/// lock's inputs together with the assigned id and the computed timeout.
pub proof fn lemma_lock_funds_round_trip(
    e: EscrowView,
    bal: Map<u64, i128>,
    signers: Seq<u64>,
    buyer: u64,
    seller: u64,
    amount: i128,
    listing_id: u64,
    timeout_duration: u64,
    now: u64,
)
    requires
        e.records.len() < u64::MAX,
    ensures
        ({
            let step = spec_lock_funds(
                e,
                bal,
                signers,
                buyer,
                seller,
                amount,
                listing_id,
                timeout_duration,
                now,
            );
            step.2 is Ok ==> step.2 == Ok::<u64, Error>(e.records.len() as u64)
                && spec_get_escrow_data(step.0, e.records.len() as u64) == Ok::<EscrowData, Error>(
                EscrowData {
                    buyer: buyer,
                    seller: seller,
                    amount: amount,
                    token: e.usdc_token,
                    listing_id: listing_id,
                    status: EscrowStatus::Locked,
                    created_at: now,
                    timeout_at: (now + timeout_duration) as u64,
                },
            )
        }),
{
}

/// Escrow fund-custody state machine. `custody` is the machine's own
/// principal, holding locked funds on the custody-asset ledger.
#[derive(Debug)]
pub struct EscrowContract {
    pub custody: u64,
    pub initialized: bool,
    pub admin: u64,
    pub usdc_token: u64,
    pub marketplace: u64,
    pub records: Vec<EscrowData>,
    pub events: Vec<EscrowEvent>,
}

impl View for EscrowContract {
    type V = EscrowView;

    open spec fn view(&self) -> EscrowView {
        EscrowView {
            custody: self.custody,
            initialized: self.initialized,
            admin: self.admin,
            usdc_token: self.usdc_token,
            marketplace: self.marketplace,
            records: self.records@,
            events: self.events@,
        }
    }
}

impl EscrowContract {
    /// A fresh, uninitialized machine whose custody account is `custody`.
    pub fn new(custody: u64) -> (r: EscrowContract)
        ensures
            r@ == (EscrowView {
                custody: custody,
                initialized: false,
                admin: 0,
                usdc_token: 0,
                marketplace: 0,
                records: Seq::empty(),
                events: Seq::empty(),
            }),
            r@.wf(),
    {
        let r = EscrowContract {
            custody,
            initialized: false,
            admin: 0,
            usdc_token: 0,
            marketplace: 0,
            records: Vec::new(),
            events: Vec::new(),
        };
        proof {
            assert(r@ =~= (EscrowView {
                custody: custody,
                initialized: false,
                admin: 0,
                usdc_token: 0,
                marketplace: 0,
                records: Seq::empty(),
                events: Seq::empty(),
            }));
        }
        r
    }

    /// One-time setup of admin, custody asset and marketplace principal;
    /// requires the admin's consent and fails with `AlreadyInitialized` if
    /// called twice.
    pub fn initialize(
        &mut self,
        auth: &AuthContext,
        admin: u64,
        usdc_token: u64,
        marketplace: u64,
    ) -> (r: Result<(), Error>)
        requires
            old(self)@.wf(),
        ensures
            final(self)@.wf(),
            final(self)@ == spec_initialize(old(self)@, auth@, admin, usdc_token, marketplace).0,
            r == spec_initialize(old(self)@, auth@, admin, usdc_token, marketplace).1,
    {
        if self.initialized {
            return Err(Error::AlreadyInitialized);
        }
        if !auth.allows(admin) {
            return Err(Error::NotAuthorized);
        }
        self.initialized = true;
        self.admin = admin;
        self.usdc_token = usdc_token;
        self.marketplace = marketplace;
        proof {
            assert(self@ =~= spec_initialize(
                old(self)@,
                auth@,
                admin,
                usdc_token,
                marketplace,
            ).0);
        }
        Ok(())
    }

    /// Lock `amount` of the custody asset in escrow for `listing_id`,
    /// moving it from the buyer into custody. Returns the fresh record's
    /// id. The record is stored before the funds move.
    pub fn lock_funds(
        &mut self,
        token: &mut UsdcMockToken,
        auth: &AuthContext,
        buyer: u64,
        seller: u64,
        amount: i128,
        listing_id: u64,
        timeout_duration: u64,
        now: u64,
    ) -> (r: Result<u64, Error>)
        requires
            old(self)@.wf(),
            old(token).wf(),
            old(self).initialized ==> old(token).asset == old(self).usdc_token,
            now + timeout_duration <= u64::MAX,
        ensures
            final(self)@.wf(),
            final(token).wf(),
            ({
                let step = spec_lock_funds(
                    old(self)@,
                    old(token)@.balances,
                    auth@,
                    buyer,
                    seller,
                    amount,
                    listing_id,
                    timeout_duration,
                    now,
                );
                &&& final(self)@ == step.0
                &&& final(token)@ == (TokenView { balances: step.1, ..old(token)@ })
                &&& r == step.2
            }),
    {
        if !auth.allows(buyer) {
            return Err(Error::NotAuthorized);
        }
        if amount <= 0 {
            return Err(Error::InvalidAmount);
        }
        if !self.initialized {
            return Err(Error::NotInitialized);
        }
        if token.balance(buyer) < amount {
            return Err(Error::InsufficientBalance);
        }
        let id = self.records.len() as u64;
        let rec = EscrowData {
            buyer,
            seller,
            amount,
            token: self.usdc_token,
            listing_id,
            status: EscrowStatus::Locked,
            created_at: now,
            timeout_at: now + timeout_duration,
        };
        self.records.push(rec);
        let tr = token.transfer(buyer, self.custody, amount);
        proof {
            assert(tr is Ok);
        }
        self.events.push(EscrowEvent::FundsLocked { escrow_id: id, buyer, amount });
        proof {
            let step = spec_lock_funds(
                old(self)@,
                old(token)@.balances,
                auth@,
                buyer,
                seller,
                amount,
                listing_id,
                timeout_duration,
                now,
            );
            assert(self@ =~= step.0);
            assert(token@ =~= (TokenView { balances: step.1, ..old(token)@ }));
        }
        Ok(id)
    }

    /// Release a locked record's funds from custody to its seller; needs
    /// the admin's consent.
    pub fn release_to_seller(
        &mut self,
        token: &mut UsdcMockToken,
        auth: &AuthContext,
        escrow_id: u64,
    ) -> (r: Result<(), Error>)
        requires
            old(self)@.wf(),
            old(token).wf(),
            old(self).initialized ==> old(token).asset == old(self).usdc_token,
        ensures
            final(self)@.wf(),
            final(token).wf(),
            ({
                let step = spec_release_to_seller(
                    old(self)@,
                    old(token)@.balances,
                    auth@,
                    escrow_id,
                );
                &&& final(self)@ == step.0
                &&& final(token)@ == (TokenView { balances: step.1, ..old(token)@ })
                &&& r == step.2
            }),
    {
        if !self.initialized {
            return Err(Error::NotInitialized);
        }
        if !auth.allows(self.admin) {
            return Err(Error::NotAuthorized);
        }
        if escrow_id >= self.records.len() as u64 {
            return Err(Error::EscrowNotFound);
        }
        let i = escrow_id as usize;
        let rec = self.records[i];
        if rec.status != EscrowStatus::Locked {
            return Err(Error::EscrowNotLocked);
        }
        if token.balance(self.custody) < rec.amount {
            return Err(Error::InsufficientBalance);
        }
        self.records[i] = EscrowData { status: EscrowStatus::Released, ..rec };
        let tr = token.transfer(self.custody, rec.seller, rec.amount);
        proof {
            assert(tr is Ok);
        }
        self.events.push(
            EscrowEvent::FundsReleased { escrow_id, seller: rec.seller, amount: rec.amount },
        );
        proof {
            let step = spec_release_to_seller(old(self)@, old(token)@.balances, auth@, escrow_id);
            assert(self@ =~= step.0);
            assert(token@ =~= (TokenView { balances: step.1, ..old(token)@ }));
        }
        Ok(())
    }

    /// Refund a locked record's funds from custody to its buyer: the admin
    /// may refund at any time, the buyer may from the record's timeout on.
    pub fn refund_to_buyer(
        &mut self,
        token: &mut UsdcMockToken,
        auth: &AuthContext,
        escrow_id: u64,
        now: u64,
    ) -> (r: Result<(), Error>)
        requires
            old(self)@.wf(),
            old(token).wf(),
            old(self).initialized ==> old(token).asset == old(self).usdc_token,
        ensures
            final(self)@.wf(),
            final(token).wf(),
            ({
                let step = spec_refund_to_buyer(
                    old(self)@,
                    old(token)@.balances,
                    auth@,
                    escrow_id,
                    now,
                );
                &&& final(self)@ == step.0
                &&& final(token)@ == (TokenView { balances: step.1, ..old(token)@ })
                &&& r == step.2
            }),
    {
        if escrow_id >= self.records.len() as u64 {
            return Err(Error::EscrowNotFound);
        }
        if !self.initialized {
            return Err(Error::NotInitialized);
        }
        let i = escrow_id as usize;
        let rec = self.records[i];
        let authorized = if now < rec.timeout_at {
            auth.allows(self.admin)
        } else {
            auth.allows(rec.buyer)
        };
        if !authorized {
            return Err(Error::NotAuthorized);
        }
        if rec.status != EscrowStatus::Locked {
            return Err(Error::EscrowNotLocked);
        }
        if token.balance(self.custody) < rec.amount {
            return Err(Error::InsufficientBalance);
        }
        self.records[i] = EscrowData { status: EscrowStatus::Refunded, ..rec };
        let tr = token.transfer(self.custody, rec.buyer, rec.amount);
        proof {
            assert(tr is Ok);
        }
        self.events.push(
            EscrowEvent::FundsRefunded { escrow_id, buyer: rec.buyer, amount: rec.amount },
        );
        proof {
            let step = spec_refund_to_buyer(
                old(self)@,
                old(token)@.balances,
                auth@,
                escrow_id,
                now,
            );
            assert(self@ =~= step.0);
            assert(token@ =~= (TokenView { balances: step.1, ..old(token)@ }));
        }
        Ok(())
    }

    /// The status of the record stored under `escrow_id`.
    pub fn get_escrow_status(&self, escrow_id: u64) -> (r: Result<EscrowStatus, Error>)
        ensures
            r == match spec_get_escrow_data(self@, escrow_id) {
                Ok(rec) => Ok::<EscrowStatus, Error>(rec.status),
                Err(e) => Err::<EscrowStatus, Error>(e),
            },
    {
        if escrow_id < self.records.len() as u64 {
            Ok(self.records[escrow_id as usize].status)
        } else {
            Err(Error::EscrowNotFound)
        }
    }

    /// The full record stored under `escrow_id`.
    pub fn get_escrow_data(&self, escrow_id: u64) -> (r: Result<EscrowData, Error>)
        ensures
            r == spec_get_escrow_data(self@, escrow_id),
    {
        if escrow_id < self.records.len() as u64 {
            Ok(self.records[escrow_id as usize])
        } else {
            Err(Error::EscrowNotFound)
        }
    }

    /// Whether the clock has reached the record's timeout.
    pub fn is_timed_out(&self, escrow_id: u64, now: u64) -> (r: Result<bool, Error>)
        ensures
            r == match spec_get_escrow_data(self@, escrow_id) {
                Ok(rec) => Ok::<bool, Error>(now >= rec.timeout_at),
                Err(e) => Err::<bool, Error>(e),
            },
    {
        if escrow_id < self.records.len() as u64 {
            Ok(now >= self.records[escrow_id as usize].timeout_at)
        } else {
            Err(Error::EscrowNotFound)
        }
    }

    /// The admin chosen at initialization.
    pub fn admin(&self) -> (r: u64)
        requires
            self@.initialized,
        ensures
            r == self@.admin,
    {
        self.admin
    }
}

} // verus!
