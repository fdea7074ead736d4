//! Fungible balances: the native currency and the fungible assets that the pallets move.
//!
//! A ledger keeps the free and reserved balance of every account and the total issuance,
//! which always equals the sum of all balances.
use vstd::prelude::*;
use crate::primitives::{AccountId, Balance};
use crate::storage::KeyMap;

verus! {

/// The balance of one account.
#[derive(Clone, Copy, Debug, PartialEq, Eq, Structural)]
pub struct AccountData {
    /// Balance that can be spent.
    pub free: Balance,
    /// Balance set aside (for example as a deposit).
    pub reserved: Balance,
}

/// Why a ledger operation was refused.
#[derive(Clone, Copy, Debug, PartialEq, Eq, Structural)]
pub enum LedgerError {
    /// The account does not hold enough free balance.
    InsufficientBalance,
    /// The total issuance would exceed the largest balance.
    Overflow,
    /// A new account would be created with less than the existential deposit.
    BelowMinimum,
    /// A keep-alive withdrawal would leave less than the existential deposit.
    WouldKillAccount,
}

/// The whole balance of an account.
pub open spec fn total_of(d: AccountData) -> int {
    d.free + d.reserved
}

/// The sum of the balances of the accounts in `keys`.
pub open spec fn balances_sum(keys: Seq<u64>, m: Map<u64, AccountData>) -> int
    decreases keys.len(),
{
    if keys.len() == 0 {
        0
    } else {
        balances_sum(keys.drop_last(), m) + total_of(m[keys.last()])
    }
}

proof fn lemma_sum_nonneg(keys: Seq<u64>, m: Map<u64, AccountData>)
    ensures
        balances_sum(keys, m) >= 0,
    decreases keys.len(),
{
    if keys.len() > 0 {
        lemma_sum_nonneg(keys.drop_last(), m);
    }
}

proof fn lemma_sum_frame(keys: Seq<u64>, m: Map<u64, AccountData>, k: u64, d: AccountData)
    requires
        !keys.contains(k),
    ensures
        balances_sum(keys, m.insert(k, d)) == balances_sum(keys, m),
    decreases keys.len(),
{
    if keys.len() > 0 {
        assert(keys.drop_last().contains(k) ==> keys.contains(k));
        assert(keys.last() != k) by {
            assert(keys[keys.len() - 1] == keys.last());
        }
        lemma_sum_frame(keys.drop_last(), m, k, d);
    }
}

proof fn lemma_sum_update(keys: Seq<u64>, m: Map<u64, AccountData>, k: u64, d: AccountData)
    requires
        keys.no_duplicates(),
        keys.contains(k),
    ensures
        balances_sum(keys, m.insert(k, d)) == balances_sum(keys, m) - total_of(m[k]) + total_of(
            d,
        ),
    decreases keys.len(),
{
    let init = keys.drop_last();
    if keys.last() == k {
        assert(!init.contains(k)) by {
            if init.contains(k) {
                let i = choose|i: int| 0 <= i < init.len() && init[i] == k;
                assert(keys[i] == keys[keys.len() - 1]);
            }
        }
        lemma_sum_frame(init, m, k, d);
    } else {
        assert(init.contains(k)) by {
            let i = choose|i: int| 0 <= i < keys.len() && keys[i] == k;
            assert(i != keys.len() - 1);
            assert(init[i] == k);
        }
        assert(init.no_duplicates()) by {
            assert forall|i: int, j: int|
                0 <= i < init.len() && 0 <= j < init.len() && i != j implies init[i]
                != init[j] by {
                assert(init[i] == keys[i] && init[j] == keys[j]);
            }
        }
        lemma_sum_update(init, m, k, d);
    }
}

proof fn lemma_sum_bound(keys: Seq<u64>, m: Map<u64, AccountData>, k: u64)
    requires
        keys.contains(k),
        forall|a: u64| #[trigger] m.contains_key(a) ==> total_of(m[a]) >= 0,
    ensures
        total_of(m[k]) <= balances_sum(keys, m),
    decreases keys.len(),
{
    let init = keys.drop_last();
    lemma_sum_nonneg(init, m);
    if keys.last() != k {
        assert(init.contains(k)) by {
            let i = choose|i: int| 0 <= i < keys.len() && keys[i] == k;
            assert(i != keys.len() - 1);
            assert(init[i] == k);
        }
        lemma_sum_bound(init, m, k);
    }
}

proof fn lemma_sum_bound_two(keys: Seq<u64>, m: Map<u64, AccountData>, a: u64, b: u64)
    requires
        keys.no_duplicates(),
        keys.contains(a),
        keys.contains(b),
        a != b,
    ensures
        total_of(m[a]) + total_of(m[b]) <= balances_sum(keys, m),
    decreases keys.len(),
{
    let init = keys.drop_last();
    lemma_sum_nonneg(init, m);
    assert(init.no_duplicates()) by {
        assert forall|i: int, j: int|
            0 <= i < init.len() && 0 <= j < init.len() && i != j implies init[i] != init[j] by {
            assert(init[i] == keys[i] && init[j] == keys[j]);
        }
    }
    let last = keys.last();
    assert forall|x: u64| keys.contains(x) && x != last implies init.contains(x) by {
        let i = choose|i: int| 0 <= i < keys.len() && keys[i] == x;
        assert(i != keys.len() - 1);
        assert(init[i] == x);
    }
    if last == a {
        lemma_sum_bound(init, m, b);
    } else if last == b {
        lemma_sum_bound(init, m, a);
    } else {
        lemma_sum_bound_two(init, m, a, b);
    }
}

/// Balances of all accounts in one currency or asset.
pub struct Ledger {
    accounts: KeyMap<AccountData>,
    existential_deposit: Balance,
    total_issuance: Balance,
}

/// The balance of an account that has never been credited.
pub open spec fn empty_account() -> AccountData {
    AccountData { free: 0, reserved: 0 }
}

impl Ledger {
    /// The ledger's internal consistency: the total issuance is the sum of all balances.
    pub closed spec fn wf(&self) -> bool {
        &&& self.accounts.key_seq().no_duplicates()
        &&& forall|k: u64|
            #[trigger] self.accounts@.contains_key(k) <==> self.accounts.key_seq().contains(k)
        &&& self.total_issuance == balances_sum(self.accounts.key_seq(), self.accounts@)
    }

    /// The balance of `who`.
    pub closed spec fn account(&self, who: AccountId) -> AccountData {
        if self.accounts@.contains_key(who) {
            self.accounts@[who]
        } else {
            empty_account()
        }
    }

    /// The free balance of `who`.
    pub open spec fn free(&self, who: AccountId) -> Balance {
        self.account(who).free
    }

    /// The reserved balance of `who`.
    pub open spec fn reserved(&self, who: AccountId) -> Balance {
        self.account(who).reserved
    }

    /// The whole balance of `who`; an account exists while it is positive.
    pub open spec fn total(&self, who: AccountId) -> int {
        total_of(self.account(who))
    }

    /// The total issuance.
    pub closed spec fn issuance(&self) -> Balance {
        self.total_issuance
    }

    /// The smallest balance with which an account may be created.
    pub closed spec fn min_balance(&self) -> Balance {
        self.existential_deposit
    }

    /// Every account other than those in `changed` holds what it held in `other`.
    pub open spec fn same_except(&self, other: &Ledger, changed: Set<AccountId>) -> bool {
        forall|a: AccountId| !changed.contains(a) ==> #[trigger] self.account(a) == other.account(a)
    }

    /// A ledger in which no account holds anything.
    pub fn new(existential_deposit: Balance) -> (l: Self)
        ensures
            l.wf(),
            l.issuance() == 0,
            l.min_balance() == existential_deposit,
            forall|a: AccountId| #[trigger] l.account(a) == empty_account(),
    {
        let l = Ledger { accounts: KeyMap::new(), existential_deposit, total_issuance: 0 };
        assert(l.accounts.key_seq().no_duplicates());
        l
    }

    /// The free balance of `who`.
    pub fn free_balance(&self, who: AccountId) -> (r: Balance)
        ensures
            r == self.free(who),
    {
        match self.accounts.get(who) {
            Some(d) => d.free,
            None => 0,
        }
    }

    /// The reserved balance of `who`.
    pub fn reserved_balance(&self, who: AccountId) -> (r: Balance)
        ensures
            r == self.reserved(who),
    {
        match self.accounts.get(who) {
            Some(d) => d.reserved,
            None => 0,
        }
    }

    /// The total issuance.
    pub fn total_issuance(&self) -> (r: Balance)
        ensures
            r == self.issuance(),
    {
        self.total_issuance
    }

    /// The existential deposit (minimum balance).
    pub fn existential_deposit(&self) -> (r: Balance)
        ensures
            r == self.min_balance(),
    {
        self.existential_deposit
    }

    fn account_data(&self, who: AccountId) -> (d: AccountData)
        ensures
            d == self.account(who),
    {
        match self.accounts.get(who) {
            Some(d) => *d,
            None => AccountData { free: 0, reserved: 0 },
        }
    }

    proof fn lemma_account_bound(&self, who: AccountId)
        requires
            self.wf(),
        ensures
            self.total(who) <= self.issuance(),
            self.total(who) >= 0,
    {
        if self.accounts@.contains_key(who) {
            assert forall|a: u64| #[trigger] self.accounts@.contains_key(a) implies total_of(
                self.accounts@[a],
            ) >= 0 by {}
            lemma_sum_bound(self.accounts.key_seq(), self.accounts@, who);
        }
    }

    proof fn lemma_two_accounts_bound(&self, a: AccountId, b: AccountId)
        requires
            self.wf(),
            a != b,
        ensures
            self.total(a) + self.total(b) <= self.issuance(),
    {
        let keys = self.accounts.key_seq();
        let m = self.accounts@;
        lemma_sum_nonneg(keys, m);
        if m.contains_key(a) && m.contains_key(b) {
            lemma_sum_bound_two(keys, m, a, b);
        } else if m.contains_key(a) {
            self.lemma_account_bound(a);
        } else if m.contains_key(b) {
            self.lemma_account_bound(b);
        }
    }

    /// Writes the balance of `who`, with the total issuance that the sum then has.
    fn write_account(&mut self, who: AccountId, d: AccountData, new_total: Balance)
        requires
            old(self).wf(),
            new_total == old(self).issuance() - old(self).total(who) + total_of(d),
        ensures
            final(self).wf(),
            final(self).account(who) == d,
            final(self).issuance() == new_total,
            final(self).min_balance() == old(self).min_balance(),
            final(self).same_except(&*old(self), set![who]),
    {
        let ghost keys = self.accounts.key_seq();
        let ghost m = self.accounts@;
        let present = self.accounts.contains_key(who);
        self.accounts.insert(who, d);
        proof {
            if present {
                lemma_sum_update(keys, m, who, d);
            } else {
                assert(!keys.contains(who));
                lemma_sum_frame(keys, m, who, d);
                let nk = keys.push(who);
                assert(nk.drop_last() =~= keys);
                assert(nk.no_duplicates()) by {
                    assert forall|i: int, j: int|
                        0 <= i < nk.len() && 0 <= j < nk.len() && i != j implies nk[i]
                        != nk[j] by {
                        if i < keys.len() && j < keys.len() {
                            assert(nk[i] == keys[i] && nk[j] == keys[j]);
                        } else if i < keys.len() {
                            assert(nk[i] == keys[i]);
                        } else {
                            assert(nk[j] == keys[j]);
                        }
                    }
                }
                assert forall|k: u64| #[trigger]
                    self.accounts@.contains_key(k) <==> nk.contains(k) by {
                    if k == who {
                        assert(nk[keys.len() as int] == who);
                    } else {
                        if keys.contains(k) {
                            let i = choose|i: int| 0 <= i < keys.len() && keys[i] == k;
                            assert(nk[i] == k);
                        }
                        if nk.contains(k) {
                            let i = choose|i: int| 0 <= i < nk.len() && nk[i] == k;
                            assert(i < keys.len());
                            assert(keys[i] == k);
                        }
                    }
                }
            }
        }
        self.total_issuance = new_total;
    }

    /// `mint_into`: creates `amount` new units in the account of `who`.
    ///
    /// A zero amount changes nothing. It fails with `Overflow` when the total issuance
    /// would overflow, and with `BelowMinimum` when `who` holds nothing and `amount` is below
    /// the existential deposit.
    pub fn mint_into(&mut self, who: AccountId, amount: Balance) -> (r: Result<(), LedgerError>)
        requires
            old(self).wf(),
        ensures
            final(self).wf(),
            final(self).min_balance() == old(self).min_balance(),
            amount == 0 ==> r is Ok && *final(self) == *old(self),
            amount > 0 && old(self).issuance() + amount > Balance::MAX ==> r == Err::<(), LedgerError>(LedgerError::Overflow),
            amount > 0 && old(self).issuance() + amount <= Balance::MAX && old(self).total(who)
                == 0 && amount < old(self).min_balance() ==> r == Err::<(), LedgerError>(LedgerError::BelowMinimum),
            r is Err ==> *final(self) == *old(self),
            r is Ok ==> {
                &&& final(self).free(who) == old(self).free(who) + amount
                &&& final(self).reserved(who) == old(self).reserved(who)
                &&& final(self).issuance() == old(self).issuance() + amount
                &&& final(self).same_except(&*old(self), set![who])
            },
            amount > 0 && old(self).issuance() + amount <= Balance::MAX && !(old(self).total(who)
                == 0 && amount < old(self).min_balance()) ==> r is Ok,
    {
        if amount == 0 {
            return Ok(());
        }
        let d = self.account_data(who);
        if self.total_issuance > Balance::MAX - amount {
            return Err(LedgerError::Overflow);
        }
        if d.free == 0 && d.reserved == 0 && amount < self.existential_deposit {
            return Err(LedgerError::BelowMinimum);
        }
        proof {
            self.lemma_account_bound(who);
        }
        let nd = AccountData { free: d.free + amount, reserved: d.reserved };
        let new_total = self.total_issuance + amount;
        self.write_account(who, nd, new_total);
        Ok(())
    }

    /// `burn_from`: destroys `amount` units of the free balance of `who`.
    ///
    /// It fails with `InsufficientBalance` when the free balance is below `amount`.
    pub fn burn_from(&mut self, who: AccountId, amount: Balance) -> (r: Result<(), LedgerError>)
        requires
            old(self).wf(),
        ensures
            final(self).wf(),
            final(self).min_balance() == old(self).min_balance(),
            r is Err <==> old(self).free(who) < amount,
            r is Err ==> r == Err::<(), LedgerError>(LedgerError::InsufficientBalance) && *final(self) == *old(self),
            r is Ok ==> {
                &&& final(self).free(who) == old(self).free(who) - amount
                &&& final(self).reserved(who) == old(self).reserved(who)
                &&& final(self).issuance() == old(self).issuance() - amount
                &&& final(self).same_except(&*old(self), set![who])
            },
    {
        let d = self.account_data(who);
        if d.free < amount {
            return Err(LedgerError::InsufficientBalance);
        }
        proof {
            self.lemma_account_bound(who);
        }
        let nd = AccountData { free: d.free - amount, reserved: d.reserved };
        let new_total = self.total_issuance - amount;
        self.write_account(who, nd, new_total);
        Ok(())
    }

    /// Moves `amount` from the free balance of `from` to that of `to`.
    ///
    /// Nothing happens when `amount` is zero or `from == to`. It fails with
    /// `InsufficientBalance` when `from` holds less than `amount`, with `WouldKillAccount`
    /// when `keep_alive` is set and `from` would be left with less than the existential
    /// deposit, and with `BelowMinimum` when `to` holds nothing and `amount` is below the
    /// existential deposit.
    pub fn transfer(
        &mut self,
        from: AccountId,
        to: AccountId,
        amount: Balance,
        keep_alive: bool,
    ) -> (r: Result<(), LedgerError>)
        requires
            old(self).wf(),
        ensures
            final(self).wf(),
            final(self).min_balance() == old(self).min_balance(),
            final(self).issuance() == old(self).issuance(),
            r == transfer_outcome(*old(self), from, to, amount, keep_alive),
            r is Err || amount == 0 || from == to ==> *final(self) == *old(self),
            r is Ok && amount > 0 && from != to ==> {
                &&& final(self).free(from) == old(self).free(from) - amount
                &&& final(self).free(to) == old(self).free(to) + amount
                &&& final(self).reserved(from) == old(self).reserved(from)
                &&& final(self).reserved(to) == old(self).reserved(to)
                &&& final(self).same_except(&*old(self), set![from, to])
            },
    {
        if amount == 0 || from == to {
            return Ok(());
        }
        let df = self.account_data(from);
        let dt = self.account_data(to);
        if df.free < amount {
            return Err(LedgerError::InsufficientBalance);
        }
        proof {
            self.lemma_account_bound(from);
        }
        if keep_alive && df.free - amount + df.reserved < self.existential_deposit {
            return Err(LedgerError::WouldKillAccount);
        }
        if dt.free == 0 && dt.reserved == 0 && amount < self.existential_deposit {
            return Err(LedgerError::BelowMinimum);
        }
        proof {
            self.lemma_two_accounts_bound(from, to);
        }
        let ghost before = *self;
        let nf = AccountData { free: df.free - amount, reserved: df.reserved };
        let t0 = self.total_issuance - amount;
        self.write_account(from, nf, t0);
        let nt = AccountData { free: dt.free + amount, reserved: dt.reserved };
        let t1 = self.total_issuance;
        proof {
            assert(self.account(to) == dt);
        }
        self.write_account(to, nt, t1 + amount);
        Ok(())
    }

    /// `reserve`: sets `amount` of the free balance of `who` aside.
    ///
    /// It fails with `InsufficientBalance` when the free balance is below `amount`.
    pub fn reserve(&mut self, who: AccountId, amount: Balance) -> (r: Result<(), LedgerError>)
        requires
            old(self).wf(),
        ensures
            final(self).wf(),
            final(self).min_balance() == old(self).min_balance(),
            final(self).issuance() == old(self).issuance(),
            r is Err <==> old(self).free(who) < amount,
            r is Err ==> r == Err::<(), LedgerError>(LedgerError::InsufficientBalance) && *final(self) == *old(self),
            r is Ok ==> {
                &&& final(self).free(who) == old(self).free(who) - amount
                &&& final(self).reserved(who) == old(self).reserved(who) + amount
                &&& final(self).same_except(&*old(self), set![who])
            },
    {
        let d = self.account_data(who);
        if d.free < amount {
            return Err(LedgerError::InsufficientBalance);
        }
        proof {
            self.lemma_account_bound(who);
        }
        let nd = AccountData { free: d.free - amount, reserved: d.reserved + amount };
        let t = self.total_issuance;
        self.write_account(who, nd, t);
        Ok(())
    }

    /// `unreserve`: returns up to `amount` of the reserved balance of `who` to its free
    /// balance, and answers the part of `amount` that was not reserved.
    pub fn unreserve(&mut self, who: AccountId, amount: Balance) -> (r: Balance)
        requires
            old(self).wf(),
        ensures
            final(self).wf(),
            final(self).min_balance() == old(self).min_balance(),
            final(self).issuance() == old(self).issuance(),
            ({
                let actual = if amount <= old(self).reserved(who) {
                    amount
                } else {
                    old(self).reserved(who)
                };
                &&& r == amount - actual
                &&& final(self).free(who) == old(self).free(who) + actual
                &&& final(self).reserved(who) == old(self).reserved(who) - actual
            }),
            final(self).same_except(&*old(self), set![who]),
    {
        let d = self.account_data(who);
        let actual = if amount <= d.reserved {
            amount
        } else {
            d.reserved
        };
        proof {
            self.lemma_account_bound(who);
        }
        let nd = AccountData { free: d.free + actual, reserved: d.reserved - actual };
        let t = self.total_issuance;
        self.write_account(who, nd, t);
        amount - actual
    }

    /// `slash_reserved`: destroys up to `amount` of the reserved balance of `who`, and
    /// answers the part of `amount` that was not reserved.
    pub fn slash_reserved(&mut self, who: AccountId, amount: Balance) -> (r: Balance)
        requires
            old(self).wf(),
        ensures
            final(self).wf(),
            final(self).min_balance() == old(self).min_balance(),
            ({
                let actual = if amount <= old(self).reserved(who) {
                    amount
                } else {
                    old(self).reserved(who)
                };
                &&& r == amount - actual
                &&& final(self).free(who) == old(self).free(who)
                &&& final(self).reserved(who) == old(self).reserved(who) - actual
                &&& final(self).issuance() == old(self).issuance() - actual
            }),
            final(self).same_except(&*old(self), set![who]),
    {
        let d = self.account_data(who);
        let actual = if amount <= d.reserved {
            amount
        } else {
            d.reserved
        };
        proof {
            self.lemma_account_bound(who);
        }
        let nd = AccountData { free: d.free, reserved: d.reserved - actual };
        let t = self.total_issuance - actual;
        self.write_account(who, nd, t);
        amount - actual
    }
}

impl Ledger {
    /// Every account holds in `self` what it holds in `other`, and the issuance and the
    /// existential deposit are the same.
    pub open spec fn same_balances(&self, other: &Ledger) -> bool {
        &&& forall|a: AccountId| #[trigger] self.account(a) == other.account(a)
        &&& self.issuance() == other.issuance()
        &&& self.min_balance() == other.min_balance()
    }

    /// No account holds more than the total issuance.
    pub proof fn lemma_free_le_issuance(&self, who: AccountId)
        requires
            self.wf(),
        ensures
            self.total(who) <= self.issuance(),
            self.free(who) <= self.issuance(),
    {
        self.lemma_account_bound(who);
    }

    /// A copy of the ledger, from which a failed sequence of operations is rolled back.
    pub fn snapshot(&self) -> (r: Ledger)
        requires
            self.wf(),
        ensures
            r.wf(),
            r.same_balances(self),
    {
        let accounts = self.accounts.duplicate();
        Ledger {
            accounts,
            existential_deposit: self.existential_deposit,
            total_issuance: self.total_issuance,
        }
    }
}

/// What a transfer answers, in the order in which its conditions are checked.
pub open spec fn transfer_outcome(
    l: Ledger,
    from: AccountId,
    to: AccountId,
    amount: Balance,
    keep_alive: bool,
) -> Result<(), LedgerError> {
    if amount == 0 || from == to {
        Ok(())
    } else if l.free(from) < amount {
        Err(LedgerError::InsufficientBalance)
    } else if keep_alive && l.total(from) - amount < l.min_balance() {
        Err(LedgerError::WouldKillAccount)
    } else if l.total(to) == 0 && amount < l.min_balance() {
        Err(LedgerError::BelowMinimum)
    } else {
        Ok(())
    }
}

/// When a transfer goes through: a transfer of nothing, or to oneself, always does; any
/// other needs the sender's free balance to cover the amount, leaves the sender at or above
/// the existential deposit when it must be kept alive, and gives an empty recipient at least
/// the existential deposit. These conditions are also enough.
pub proof fn lemma_transfer_rules(l: Ledger, from: AccountId, to: AccountId, amount: Balance, keep_alive: bool)
    ensures
        amount == 0 || from == to ==> transfer_outcome(l, from, to, amount, keep_alive) is Ok,
        amount > 0 && from != to ==> (transfer_outcome(l, from, to, amount, keep_alive) is Ok <==> {
            &&& l.free(from) >= amount
            &&& keep_alive ==> l.total(from) - amount >= l.min_balance()
            &&& l.total(to) > 0 || amount >= l.min_balance()
        }),
        amount > 0 && from != to && l.free(from) < amount ==> transfer_outcome(l, from, to, amount, keep_alive)
            == Err::<(), LedgerError>(LedgerError::InsufficientBalance),
{
}

} // verus!
