//! Mock fungible-asset ledger.
//!
//! [`UsdcMockToken`] is a basic token contract and at the same time the
//! asset-transfer gateway that the escrow and marketplace machines call: it
//! answers `balance`, `allowance` and `transfer` for one asset. Balances are
//! held as a vector of per-owner entries with unique owners; the
//! mathematical view is a total map from principal to balance. The
//! well-formedness invariant [`UsdcMockToken::wf`] keeps every balance
//! non-negative and their sum equal to the minted supply, so a transfer can
//! never overflow and funds are neither created nor destroyed by moves.

use vstd::prelude::*;

use crate::errors::Error;

verus! {

/// One owner's balance of the asset.
#[derive(Clone, Copy, Debug, PartialEq, Eq, Structural)]
pub struct BalanceEntry {
    pub owner: u64,
    pub amount: i128,
}

/// How much `spender` may still move out of `owner`'s balance.
#[derive(Clone, Copy, Debug, PartialEq, Eq, Structural)]
pub struct AllowanceEntry {
    pub owner: u64,
    pub spender: u64,
    pub amount: i128,
}

/// The balance of `owner` in a list of entries: the amount of its first
/// entry, or zero when it has none.
pub open spec fn balance_in(s: Seq<BalanceEntry>, owner: u64) -> i128
    decreases s.len(),
{
    if s.len() == 0 {
        0
    } else if s.first().owner == owner {
        s.first().amount
    } else {
        balance_in(s.drop_first(), owner)
    }
}

/// The sum of all balance entries.
pub open spec fn sum_balances(s: Seq<BalanceEntry>) -> int
    decreases s.len(),
{
    if s.len() == 0 {
        0
    } else {
        s.first().amount + sum_balances(s.drop_first())
    }
}

/// No two entries name the same owner.
pub open spec fn unique_owners(s: Seq<BalanceEntry>) -> bool {
    forall|i: int, j: int| 0 <= i < j < s.len() ==> s[i].owner != s[j].owner
}

/// Every entry is non-negative.
pub open spec fn nonneg_balances(s: Seq<BalanceEntry>) -> bool {
    forall|i: int| 0 <= i < s.len() ==> s[i].amount >= 0
}

/// The allowance of `(owner, spender)` in a list of entries.
pub open spec fn allowance_in(s: Seq<AllowanceEntry>, owner: u64, spender: u64) -> i128
    decreases s.len(),
{
    if s.len() == 0 {
        0
    } else if s.first().owner == owner && s.first().spender == spender {
        s.first().amount
    } else {
        allowance_in(s.drop_first(), owner, spender)
    }
}

/// No two entries name the same `(owner, spender)` pair.
pub open spec fn unique_allowance_keys(s: Seq<AllowanceEntry>) -> bool {
    forall|i: int, j: int|
        0 <= i < j < s.len() ==> !(s[i].owner == s[j].owner && s[i].spender == s[j].spender)
}

/// The balance map after moving `amount` from `from` to `to`: a move to
/// oneself leaves every balance as it was.
pub open spec fn spec_move(
    b: Map<u64, i128>,
    from: u64,
    to: u64,
    amount: i128,
) -> Map<u64, i128> {
    if from == to {
        b
    } else {
        b.insert(from, (b[from] - amount) as i128).insert(to, (b[to] + amount) as i128)
    }
}

/// The mathematical state of the ledger: total maps from principal to
/// balance and from `(owner, spender)` to allowance.
#[verifier::ext_equal]
pub struct TokenView {
    pub asset: u64,
    pub initialized: bool,
    pub admin: u64,
    pub total_supply: i128,
    pub balances: Map<u64, i128>,
    pub allowances: Map<(u64, u64), i128>,
}

/// Looking an owner up sees exactly its entry: under unique owners, the
/// balance of `s[k].owner` is `s[k].amount`.
pub proof fn lemma_balance_at(s: Seq<BalanceEntry>, k: int)
    requires
        unique_owners(s),
        0 <= k < s.len(),
    ensures
        balance_in(s, s[k].owner) == s[k].amount,
    decreases k,
{
    if k > 0 {
        assert(s.first().owner != s[k].owner);
        lemma_balance_at(s.drop_first(), k - 1);
    }
}

/// An owner with no entry holds zero.
pub proof fn lemma_balance_absent(s: Seq<BalanceEntry>, owner: u64)
    requires
        forall|i: int| 0 <= i < s.len() ==> s[i].owner != owner,
    ensures
        balance_in(s, owner) == 0,
    decreases s.len(),
{
    if s.len() > 0 {
        lemma_balance_absent(s.drop_first(), owner);
    }
}

/// Replacing the amount of entry `k` changes the balance of that entry's
/// owner alone.
pub proof fn lemma_balance_update(s: Seq<BalanceEntry>, k: int, v: i128)
    requires
        unique_owners(s),
        0 <= k < s.len(),
    ensures
        forall|o: u64|
            balance_in(
                s.update(k, BalanceEntry { owner: s[k].owner, amount: v }),
                o,
            ) == if o == s[k].owner {
                v
            } else {
                balance_in(s, o)
            },
    decreases k,
{
    let s2 = s.update(k, BalanceEntry { owner: s[k].owner, amount: v });
    if k == 0 {
        assert(s2.drop_first() =~= s.drop_first());
        assert forall|o: u64|
            balance_in(s2, o) == if o == s[k].owner {
                v
            } else {
                balance_in(s, o)
            } by {
            if o != s[0].owner {
                assert(balance_in(s2, o) == balance_in(s2.drop_first(), o));
            }
        }
    } else {
        lemma_balance_update(s.drop_first(), k - 1, v);
        assert(s2.drop_first() =~= s.drop_first().update(
            k - 1,
            BalanceEntry { owner: s.drop_first()[k - 1].owner, amount: v },
        ));
        assert forall|o: u64|
            balance_in(s2, o) == if o == s[k].owner {
                v
            } else {
                balance_in(s, o)
            } by {
            assert(s2.first() == s.first());
            if o == s.first().owner {
                assert(o != s[k].owner);
            } else {
                assert(balance_in(s2, o) == balance_in(s2.drop_first(), o));
                assert(balance_in(s, o) == balance_in(s.drop_first(), o));
            }
        }
    }
}

/// Appending an entry for a fresh owner changes that owner's balance alone.
pub proof fn lemma_balance_push(s: Seq<BalanceEntry>, e: BalanceEntry)
    requires
        forall|i: int| 0 <= i < s.len() ==> s[i].owner != e.owner,
    ensures
        forall|o: u64|
            balance_in(s.push(e), o) == if o == e.owner {
                e.amount
            } else {
                balance_in(s, o)
            },
    decreases s.len(),
{
    if s.len() == 0 {
        assert(s.push(e).first() == e);
        assert(s.push(e).drop_first() =~= Seq::<BalanceEntry>::empty());
        assert forall|o: u64|
            balance_in(s.push(e), o) == if o == e.owner {
                e.amount
            } else {
                balance_in(s, o)
            } by {
            if o != e.owner {
                assert(balance_in(s.push(e), o) == balance_in(s.push(e).drop_first(), o));
            }
        }
    } else {
        lemma_balance_push(s.drop_first(), e);
        assert(s.push(e).drop_first() =~= s.drop_first().push(e));
        assert forall|o: u64|
            balance_in(s.push(e), o) == if o == e.owner {
                e.amount
            } else {
                balance_in(s, o)
            } by {
            assert(s.push(e).first() == s.first());
            if o != s.first().owner {
                assert(balance_in(s.push(e), o) == balance_in(s.push(e).drop_first(), o));
                assert(balance_in(s, o) == balance_in(s.drop_first(), o));
            }
        }
    }
}

/// Replacing the amount of entry `k` moves the sum by the difference.
pub proof fn lemma_sum_update(s: Seq<BalanceEntry>, k: int, v: i128)
    requires
        0 <= k < s.len(),
    ensures
        sum_balances(s.update(k, BalanceEntry { owner: s[k].owner, amount: v }))
            == sum_balances(s) - s[k].amount + v,
    decreases k,
{
    let s2 = s.update(k, BalanceEntry { owner: s[k].owner, amount: v });
    if k == 0 {
        assert(s2.drop_first() =~= s.drop_first());
    } else {
        lemma_sum_update(s.drop_first(), k - 1, v);
        assert(s2.drop_first() =~= s.drop_first().update(
            k - 1,
            BalanceEntry { owner: s.drop_first()[k - 1].owner, amount: v },
        ));
        assert(s2.first() == s.first());
    }
}

/// Appending an entry adds its amount to the sum.
pub proof fn lemma_sum_push(s: Seq<BalanceEntry>, e: BalanceEntry)
    ensures
        sum_balances(s.push(e)) == sum_balances(s) + e.amount,
    decreases s.len(),
{
    if s.len() == 0 {
        assert(s.push(e).first() == e);
        assert(s.push(e).drop_first() =~= Seq::<BalanceEntry>::empty());
        assert(sum_balances(Seq::<BalanceEntry>::empty()) == 0);
        assert(sum_balances(s.push(e)) == sum_balances(s) + e.amount);
    } else {
        lemma_sum_push(s.drop_first(), e);
        assert(s.push(e).drop_first() =~= s.drop_first().push(e));
        assert(s.push(e).first() == s.first());
        assert(sum_balances(s.push(e)) == s.first().amount + sum_balances(
            s.drop_first().push(e),
        ));
        assert(sum_balances(s) == s.first().amount + sum_balances(s.drop_first()));
        assert(sum_balances(s.push(e)) == sum_balances(s) + e.amount);
    }
}

/// Two distinct owners together never hold more than the sum of all
/// entries.
pub proof fn lemma_two_balances(s: Seq<BalanceEntry>, o1: u64, o2: u64)
    requires
        nonneg_balances(s),
        o1 != o2,
    ensures
        balance_in(s, o1) + balance_in(s, o2) <= sum_balances(s),
    decreases s.len(),
{
    lemma_balance_bounded(s, o1);
    lemma_balance_bounded(s, o2);
    if s.len() > 0 {
        if s.first().owner == o1 {
            lemma_balance_bounded(s.drop_first(), o2);
        } else if s.first().owner == o2 {
            lemma_balance_bounded(s.drop_first(), o1);
        } else {
            lemma_two_balances(s.drop_first(), o1, o2);
        }
    }
}

/// With non-negative entries, every owner's balance lies between zero and
/// the sum of all entries.
pub proof fn lemma_balance_bounded(s: Seq<BalanceEntry>, owner: u64)
    requires
        nonneg_balances(s),
    ensures
        0 <= balance_in(s, owner),
        balance_in(s, owner) <= sum_balances(s),
        sum_balances(s) >= 0,
    decreases s.len(),
{
    if s.len() > 0 {
        lemma_balance_bounded(s.drop_first(), owner);
    }
}

/// Looking a pair up sees exactly its entry: under unique keys, the
/// allowance of `(s[k].owner, s[k].spender)` is `s[k].amount`.
pub proof fn lemma_allowance_at(s: Seq<AllowanceEntry>, k: int)
    requires
        unique_allowance_keys(s),
        0 <= k < s.len(),
    ensures
        allowance_in(s, s[k].owner, s[k].spender) == s[k].amount,
    decreases k,
{
    if k > 0 {
        lemma_allowance_at(s.drop_first(), k - 1);
    }
}

/// Replacing the amount of entry `k` changes the allowance of that entry's
/// key alone.
pub proof fn lemma_allowance_update(s: Seq<AllowanceEntry>, k: int, v: i128)
    requires
        unique_allowance_keys(s),
        0 <= k < s.len(),
    ensures
        forall|o: u64, p: u64|
            allowance_in(
                s.update(k, AllowanceEntry { owner: s[k].owner, spender: s[k].spender, amount: v }),
                o,
                p,
            ) == if o == s[k].owner && p == s[k].spender {
                v
            } else {
                allowance_in(s, o, p)
            },
    decreases k,
{
    let e2 = AllowanceEntry { owner: s[k].owner, spender: s[k].spender, amount: v };
    let s2 = s.update(k, e2);
    if k == 0 {
        assert(s2.drop_first() =~= s.drop_first());
        assert forall|o: u64, p: u64|
            allowance_in(s2, o, p) == if o == s[k].owner && p == s[k].spender {
                v
            } else {
                allowance_in(s, o, p)
            } by {
            if !(o == s[0].owner && p == s[0].spender) {
                assert(allowance_in(s2, o, p) == allowance_in(s2.drop_first(), o, p));
            }
        }
    } else {
        lemma_allowance_update(s.drop_first(), k - 1, v);
        assert(s2.drop_first() =~= s.drop_first().update(
            k - 1,
            AllowanceEntry {
                owner: s.drop_first()[k - 1].owner,
                spender: s.drop_first()[k - 1].spender,
                amount: v,
            },
        ));
        assert forall|o: u64, p: u64|
            allowance_in(s2, o, p) == if o == s[k].owner && p == s[k].spender {
                v
            } else {
                allowance_in(s, o, p)
            } by {
            assert(s2.first() == s.first());
            if o == s.first().owner && p == s.first().spender {
                assert(!(o == s[k].owner && p == s[k].spender));
            } else {
                assert(allowance_in(s2, o, p) == allowance_in(s2.drop_first(), o, p));
                assert(allowance_in(s, o, p) == allowance_in(s.drop_first(), o, p));
            }
        }
    }
}

/// Appending an entry for a fresh key changes that key's allowance alone.
pub proof fn lemma_allowance_push(s: Seq<AllowanceEntry>, e: AllowanceEntry)
    requires
        forall|i: int|
            0 <= i < s.len() ==> !(s[i].owner == e.owner && s[i].spender == e.spender),
    ensures
        forall|o: u64, p: u64|
            allowance_in(s.push(e), o, p) == if o == e.owner && p == e.spender {
                e.amount
            } else {
                allowance_in(s, o, p)
            },
    decreases s.len(),
{
    if s.len() == 0 {
        assert(s.push(e).first() == e);
        assert(s.push(e).drop_first() =~= Seq::<AllowanceEntry>::empty());
        assert forall|o: u64, p: u64|
            allowance_in(s.push(e), o, p) == if o == e.owner && p == e.spender {
                e.amount
            } else {
                allowance_in(s, o, p)
            } by {
            if !(o == e.owner && p == e.spender) {
                assert(allowance_in(s.push(e), o, p) == allowance_in(
                    s.push(e).drop_first(),
                    o,
                    p,
                ));
            }
        }
    } else {
        lemma_allowance_push(s.drop_first(), e);
        assert(s.push(e).drop_first() =~= s.drop_first().push(e));
        assert forall|o: u64, p: u64|
            allowance_in(s.push(e), o, p) == if o == e.owner && p == e.spender {
                e.amount
            } else {
                allowance_in(s, o, p)
            } by {
            assert(s.push(e).first() == s.first());
            if !(o == s.first().owner && p == s.first().spender) {
                assert(allowance_in(s.push(e), o, p) == allowance_in(
                    s.push(e).drop_first(),
                    o,
                    p,
                ));
                assert(allowance_in(s, o, p) == allowance_in(s.drop_first(), o, p));
            }
        }
    }
}

/// Ledger of one fungible asset, identified by the plain principal id of
/// its token contract.
#[derive(Debug)]
pub struct UsdcMockToken {
    pub asset: u64,
    pub initialized: bool,
    pub admin: u64,
    pub total_supply: i128,
    pub balances: Vec<BalanceEntry>,
    pub allowances: Vec<AllowanceEntry>,
}

impl View for UsdcMockToken {
    type V = TokenView;

    open spec fn view(&self) -> TokenView {
        TokenView {
            asset: self.asset,
            initialized: self.initialized,
            admin: self.admin,
            total_supply: self.total_supply,
            balances: Map::total(|o: u64| balance_in(self.balances@, o)),
            allowances: Map::total(
                |k: (u64, u64)| allowance_in(self.allowances@, k.0, k.1),
            ),
        }
    }
}

impl UsdcMockToken {
    /// Balances are unique per owner and non-negative, their sum is exactly
    /// the minted supply, and allowance keys are unique.
    pub open spec fn wf(self) -> bool {
        &&& unique_owners(self.balances@)
        &&& nonneg_balances(self.balances@)
        &&& sum_balances(self.balances@) == self.total_supply
        &&& self.total_supply >= 0
        &&& unique_allowance_keys(self.allowances@)
    }

    /// A fresh ledger: no supply, every balance and allowance zero.
    pub fn new(asset: u64) -> (r: UsdcMockToken)
        ensures
            r.wf(),
            r@.asset == asset,
            !r@.initialized,
            r@.total_supply == 0,
            forall|o: u64| r@.balances[o] == 0,
            forall|k: (u64, u64)| r@.allowances[k] == 0,
    {
        UsdcMockToken {
            asset,
            initialized: false,
            admin: 0,
            total_supply: 0,
            balances: Vec::new(),
            allowances: Vec::new(),
        }
    }

    /// One-time setup of the token's admin; fails if called twice.
    pub fn initialize(&mut self, admin: u64) -> (r: Result<(), Error>)
        ensures
            old(self)@.initialized ==> r == Err::<(), Error>(Error::AlreadyInitialized)
                && *final(self) == *old(self),
            !old(self)@.initialized ==> r == Ok::<(), Error>(())
                && final(self)@ == (TokenView {
                    initialized: true,
                    admin: admin,
                    ..old(self)@
                }),
            final(self).wf() == old(self).wf(),
    {
        if self.initialized {
            return Err(Error::AlreadyInitialized);
        }
        self.initialized = true;
        self.admin = admin;
        proof {
            assert(self@ =~= (TokenView { initialized: true, admin: admin, ..old(self)@ }));
        }
        Ok(())
    }

    /// The balance of `owner`; principals without an entry hold zero.
    pub fn balance(&self, owner: u64) -> (r: i128)
        ensures
            r == self@.balances[owner],
    {
        let n = self.balances.len();
        let mut i: usize = 0;
        proof {
            assert(self.balances@.skip(0) =~= self.balances@);
        }
        while i < n
            invariant
                i <= n,
                n == self.balances@.len(),
                balance_in(self.balances@, owner) == balance_in(
                    self.balances@.skip(i as int),
                    owner,
                ),
            decreases n - i,
        {
            let e = self.balances[i];
            proof {
                assert(self.balances@.skip(i as int).first() == self.balances@[i as int]);
                assert(self.balances@.skip(i as int).drop_first() =~= self.balances@.skip(
                    i as int + 1,
                ));
            }
            if e.owner == owner {
                return e.amount;
            }
            i = i + 1;
        }
        proof {
            assert(self.balances@.skip(n as int) =~= Seq::<BalanceEntry>::empty());
        }
        0
    }

    /// How much `spender` may move out of `owner`'s balance.
    pub fn allowance(&self, owner: u64, spender: u64) -> (r: i128)
        ensures
            r == self@.allowances[(owner, spender)],
    {
        let n = self.allowances.len();
        let mut i: usize = 0;
        proof {
            assert(self.allowances@.skip(0) =~= self.allowances@);
        }
        while i < n
            invariant
                i <= n,
                n == self.allowances@.len(),
                allowance_in(self.allowances@, owner, spender) == allowance_in(
                    self.allowances@.skip(i as int),
                    owner,
                    spender,
                ),
            decreases n - i,
        {
            let e = self.allowances[i];
            proof {
                assert(self.allowances@.skip(i as int).first() == self.allowances@[i as int]);
                assert(self.allowances@.skip(i as int).drop_first() =~= self.allowances@.skip(
                    i as int + 1,
                ));
            }
            if e.owner == owner && e.spender == spender {
                return e.amount;
            }
            i = i + 1;
        }
        proof {
            assert(self.allowances@.skip(n as int) =~= Seq::<AllowanceEntry>::empty());
        }
        0
    }

    /// Index of `owner`'s balance entry, if it has one.
    fn find_balance_index(&self, owner: u64) -> (r: Option<usize>)
        ensures
            match r {
                Some(i) => i < self.balances@.len() && self.balances@[i as int].owner == owner,
                None => forall|j: int|
                    0 <= j < self.balances@.len() ==> self.balances@[j].owner != owner,
            },
    {
        let n = self.balances.len();
        let mut i: usize = 0;
        while i < n
            invariant
                i <= n,
                n == self.balances@.len(),
                forall|j: int| 0 <= j < i ==> self.balances@[j].owner != owner,
            decreases n - i,
        {
            if self.balances[i].owner == owner {
                return Some(i);
            }
            i = i + 1;
        }
        None
    }

    /// Index of the `(owner, spender)` allowance entry, if there is one.
    fn find_allowance_index(&self, owner: u64, spender: u64) -> (r: Option<usize>)
        ensures
            match r {
                Some(i) => i < self.allowances@.len() && self.allowances@[i as int].owner == owner
                    && self.allowances@[i as int].spender == spender,
                None => forall|j: int|
                    0 <= j < self.allowances@.len() ==> !(self.allowances@[j].owner == owner
                        && self.allowances@[j].spender == spender),
            },
    {
        let n = self.allowances.len();
        let mut i: usize = 0;
        while i < n
            invariant
                i <= n,
                n == self.allowances@.len(),
                forall|j: int|
                    0 <= j < i ==> !(self.allowances@[j].owner == owner
                        && self.allowances@[j].spender == spender),
            decreases n - i,
        {
            let e = self.allowances[i];
            if e.owner == owner && e.spender == spender {
                return Some(i);
            }
            i = i + 1;
        }
        None
    }

    /// Overwrite `owner`'s balance with `new_amount`, creating the entry if
    /// needed.
    fn set_balance(&mut self, owner: u64, new_amount: i128)
        requires
            unique_owners(old(self).balances@),
        ensures
            unique_owners(final(self).balances@),
            nonneg_balances(old(self).balances@) && new_amount >= 0 ==> nonneg_balances(
                final(self).balances@,
            ),
            sum_balances(final(self).balances@) == sum_balances(old(self).balances@) - old(
                self,
            )@.balances[owner] + new_amount,
            final(self)@.balances == old(self)@.balances.insert(owner, new_amount),
            final(self)@.allowances == old(self)@.allowances,
            final(self).allowances@ == old(self).allowances@,
            final(self).asset == old(self).asset,
            final(self).initialized == old(self).initialized,
            final(self).admin == old(self).admin,
            final(self).total_supply == old(self).total_supply,
    {
        let ghost s0 = self.balances@;
        let e = BalanceEntry { owner, amount: new_amount };
        match self.find_balance_index(owner) {
            Some(i) => {
                proof {
                    lemma_balance_at(s0, i as int);
                    lemma_balance_update(s0, i as int, new_amount);
                    lemma_sum_update(s0, i as int, new_amount);
                }
                self.balances[i] = e;
                proof {
                    assert(self.balances@ == s0.update(i as int, e));
                    assert forall|j: int|
                        0 <= j < self.balances@.len() implies self.balances@[j].owner
                        == s0[j].owner by {}
                    assert(unique_owners(self.balances@));
                    assert(self@.balances =~= old(self)@.balances.insert(owner, new_amount)) by {
                        assert forall|o: u64| self@.balances[o] == old(self)@.balances.insert(
                            owner,
                            new_amount,
                        )[o] by {}
                    }
                    assert(self@.allowances =~= old(self)@.allowances);
                }
            },
            None => {
                proof {
                    lemma_balance_absent(s0, owner);
                    lemma_balance_push(s0, e);
                    lemma_sum_push(s0, e);
                }
                self.balances.push(e);
                proof {
                    assert(self.balances@ == s0.push(e));
                    assert(unique_owners(self.balances@));
                    assert(self@.balances =~= old(self)@.balances.insert(owner, new_amount)) by {
                        assert forall|o: u64| self@.balances[o] == old(self)@.balances.insert(
                            owner,
                            new_amount,
                        )[o] by {}
                    }
                    assert(self@.allowances =~= old(self)@.allowances);
                }
            },
        }
    }

    /// Overwrite the `(owner, spender)` allowance with `new_amount`,
    /// creating the entry if needed.
    fn set_allowance(&mut self, owner: u64, spender: u64, new_amount: i128)
        requires
            unique_allowance_keys(old(self).allowances@),
        ensures
            unique_allowance_keys(final(self).allowances@),
            final(self)@.allowances == old(self)@.allowances.insert(
                (owner, spender),
                new_amount,
            ),
            final(self)@.balances == old(self)@.balances,
            final(self).balances@ == old(self).balances@,
            final(self).asset == old(self).asset,
            final(self).initialized == old(self).initialized,
            final(self).admin == old(self).admin,
            final(self).total_supply == old(self).total_supply,
    {
        let ghost s0 = self.allowances@;
        let e = AllowanceEntry { owner, spender, amount: new_amount };
        match self.find_allowance_index(owner, spender) {
            Some(i) => {
                proof {
                    lemma_allowance_update(s0, i as int, new_amount);
                }
                self.allowances[i] = e;
                proof {
                    assert(self.allowances@ == s0.update(i as int, e));
                    assert forall|j: int|
                        0 <= j < self.allowances@.len() implies self.allowances@[j].owner
                        == s0[j].owner && self.allowances@[j].spender == s0[j].spender by {}
                    assert(unique_allowance_keys(self.allowances@));
                    assert(self@.allowances =~= old(self)@.allowances.insert(
                        (owner, spender),
                        new_amount,
                    )) by {
                        assert forall|k: (u64, u64)| self@.allowances[k] == old(
                            self,
                        )@.allowances.insert((owner, spender), new_amount)[k] by {}
                    }
                    assert(self@.balances =~= old(self)@.balances);
                }
            },
            None => {
                proof {
                    lemma_allowance_push(s0, e);
                }
                self.allowances.push(e);
                proof {
                    assert(self.allowances@ == s0.push(e));
                    assert(unique_allowance_keys(self.allowances@));
                    assert(self@.allowances =~= old(self)@.allowances.insert(
                        (owner, spender),
                        new_amount,
                    )) by {
                        assert forall|k: (u64, u64)| self@.allowances[k] == old(
                            self,
                        )@.allowances.insert((owner, spender), new_amount)[k] by {}
                    }
                    assert(self@.balances =~= old(self)@.balances);
                }
            },
        }
    }

    /// Create `amount` new units in `to`'s balance. Minting a non-positive
    /// amount is rejected; minting past the representable supply is
    /// rejected rather than wrapped.
    pub fn mint(&mut self, to: u64, amount: i128) -> (r: Result<(), Error>)
        requires
            old(self).wf(),
        ensures
            final(self).wf(),
            amount <= 0 ==> r == Err::<(), Error>(Error::InvalidAmount) && *final(self) == *old(
                self,
            ),
            amount > 0 && old(self)@.total_supply + amount > i128::MAX ==> r == Err::<(), Error>(
                Error::MintExceedsSupply,
            ) && *final(self) == *old(self),
            amount > 0 && old(self)@.total_supply + amount <= i128::MAX ==> r == Ok::<(), Error>(
                (),
            ) && final(self)@ == (TokenView {
                total_supply: (old(self)@.total_supply + amount) as i128,
                balances: old(self)@.balances.insert(
                    to,
                    (old(self)@.balances[to] + amount) as i128,
                ),
                ..old(self)@
            }),
    {
        if amount <= 0 {
            return Err(Error::InvalidAmount);
        }
        let new_supply = match self.total_supply.checked_add(amount) {
            Some(v) => v,
            None => {
                return Err(Error::MintExceedsSupply);
            },
        };
        let old_bal = self.balance(to);
        proof {
            lemma_balance_bounded(self.balances@, to);
        }
        self.total_supply = new_supply;
        self.set_balance(to, old_bal + amount);
        proof {
            assert(self.wf());
            assert(self@ =~= (TokenView {
                total_supply: new_supply,
                balances: old(self)@.balances.insert(to, (old(self)@.balances[to] + amount) as i128),
                ..old(self)@
            }));
        }
        Ok(())
    }

    /// Let `spender` move up to `amount` out of `owner`'s balance.
    pub fn approve(&mut self, owner: u64, spender: u64, amount: i128)
        requires
            old(self).wf(),
        ensures
            final(self).wf(),
            final(self)@ == (TokenView {
                allowances: old(self)@.allowances.insert((owner, spender), amount),
                ..old(self)@
            }),
    {
        self.set_allowance(owner, spender, amount);
        proof {
            assert(self@ =~= (TokenView {
                allowances: old(self)@.allowances.insert((owner, spender), amount),
                ..old(self)@
            }));
        }
    }

    /// Move `amount` from `from` to `to`. The move succeeds exactly when
    /// the amount is positive and `from` holds at least that much; on
    /// failure nothing changes.
    pub fn transfer(&mut self, from: u64, to: u64, amount: i128) -> (r: Result<(), Error>)
        requires
            old(self).wf(),
        ensures
            final(self).wf(),
            r == Ok::<(), Error>(()) <==> amount > 0 && old(self)@.balances[from] >= amount,
            amount <= 0 ==> r == Err::<(), Error>(Error::InvalidAmount) && *final(self) == *old(
                self,
            ),
            amount > 0 && old(self)@.balances[from] < amount ==> r == Err::<(), Error>(
                Error::InsufficientBalance,
            ) && *final(self) == *old(self),
            r == Ok::<(), Error>(()) ==> final(self)@ == (TokenView {
                balances: spec_move(old(self)@.balances, from, to, amount),
                ..old(self)@
            }),
    {
        if amount <= 0 {
            return Err(Error::InvalidAmount);
        }
        let from_bal = self.balance(from);
        if from_bal < amount {
            return Err(Error::InsufficientBalance);
        }
        if from == to {
            proof {
                assert(self@ =~= (TokenView {
                    balances: spec_move(old(self)@.balances, from, to, amount),
                    ..old(self)@
                }));
            }
            return Ok(());
        }
        let to_bal = self.balance(to);
        proof {
            lemma_two_balances(self.balances@, from, to);
            lemma_balance_bounded(self.balances@, to);
        }
        self.set_balance(from, from_bal - amount);
        let ghost mid = self@;
        proof {
            assert(mid.balances[to] == to_bal);
        }
        self.set_balance(to, to_bal + amount);
        proof {
            assert(self@ =~= (TokenView {
                balances: spec_move(old(self)@.balances, from, to, amount),
                ..old(self)@
            }));
        }
        Ok(())
    }

    /// Move `amount` from `from` to `to` on behalf of `spender`, consuming
    /// that much of the `(from, spender)` allowance.
    pub fn transfer_from(&mut self, spender: u64, from: u64, to: u64, amount: i128) -> (r: Result<
        (),
        Error,
    >)
        requires
            old(self).wf(),
        ensures
            final(self).wf(),
            amount <= 0 ==> r == Err::<(), Error>(Error::InvalidAmount) && *final(self) == *old(
                self,
            ),
            amount > 0 && old(self)@.allowances[(from, spender)] < amount ==> r == Err::<(), Error>(
                Error::InsufficientAllowance,
            ) && *final(self) == *old(self),
            amount > 0 && old(self)@.allowances[(from, spender)] >= amount && old(
                self,
            )@.balances[from] < amount ==> r == Err::<(), Error>(Error::InsufficientBalance)
                && *final(self) == *old(self),
            amount > 0 && old(self)@.allowances[(from, spender)] >= amount && old(
                self,
            )@.balances[from] >= amount ==> r == Ok::<(), Error>(()) && final(self)@ == (TokenView {
                balances: spec_move(old(self)@.balances, from, to, amount),
                allowances: old(self)@.allowances.insert(
                    (from, spender),
                    (old(self)@.allowances[(from, spender)] - amount) as i128,
                ),
                ..old(self)@
            }),
    {
        if amount <= 0 {
            return Err(Error::InvalidAmount);
        }
        let allowed = self.allowance(from, spender);
        if allowed < amount {
            return Err(Error::InsufficientAllowance);
        }
        let from_bal = self.balance(from);
        if from_bal < amount {
            return Err(Error::InsufficientBalance);
        }
        self.set_allowance(from, spender, allowed - amount);
        let tr = self.transfer(from, to, amount);
        proof {
            assert(tr is Ok);
            assert(self@ =~= (TokenView {
                balances: spec_move(old(self)@.balances, from, to, amount),
                allowances: old(self)@.allowances.insert(
                    (from, spender),
                    (old(self)@.allowances[(from, spender)] - amount) as i128,
                ),
                ..old(self)@
            }));
        }
        match tr {
            Ok(()) => Ok(()),
            Err(e) => Err(e),
        }
    }

    /// The total minted supply.
    pub fn total_supply(&self) -> (r: i128)
        ensures
            r == self@.total_supply,
    {
        self.total_supply
    }

    /// The admin chosen at initialization.
    pub fn admin(&self) -> (r: u64)
        requires
            self@.initialized,
        ensures
            r == self@.admin,
    {
        self.admin
    }
}

} // verus!
