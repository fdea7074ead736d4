//! The token wrapper: locks native HEZ in the pallet's account and mints the same amount of
//! the wrapped asset, and the reverse. Every wrapped token is backed one to one by a locked
//! native token.
use vstd::prelude::*;
use crate::primitives::{AccountId, Balance, Origin, signer_of, ensure_signed, pallet_account_id, spec_pallet_account, saturate_u128};
use crate::ledger::{Ledger, LedgerError, transfer_outcome};

verus! {

/// Events of the pallet.
#[derive(Clone, Copy, Debug, PartialEq, Eq, Structural)]
pub enum WrapperEvent {
    Wrapped { who: AccountId, amount: Balance },
    Unwrapped { who: AccountId, amount: Balance },
}

/// Errors of the pallet.
#[derive(Clone, Copy, Debug, PartialEq, Eq, Structural)]
pub enum WrapperError {
    /// The call was not signed.
    BadOrigin,
    InsufficientBalance,
    InsufficientWrappedBalance,
    TransferFailed,
    MintFailed,
    BurnFailed,
    ZeroAmount,
}

/// The storage of the token wrapper pallet.
pub struct TokenWrapper {
    /// The pallet id, from which the account holding the locked tokens is derived.
    pub pallet_id: [u8; 8],
    /// `TotalLocked`: the native tokens locked by wrapping.
    pub total_locked_amount: Balance,
    /// Events deposited so far.
    pub events: Vec<WrapperEvent>,
}

/// The account that holds the locked native tokens.
pub open spec fn wrapper_account(w: TokenWrapper) -> AccountId {
    spec_pallet_account(w.pallet_id@)
}

/// Every wrapped token is backed: the wrapped supply equals the locked amount, which the
/// pallet's account holds.
pub open spec fn fully_backed(w: TokenWrapper, currency: Ledger, wrapped: Ledger) -> bool {
    &&& wrapped.issuance() == w.total_locked_amount
    &&& currency.free(wrapper_account(w)) >= w.total_locked_amount
}

/// What wrapping `amount` for `who` answers, in the order of the checks.
pub open spec fn wrap_outcome(w: TokenWrapper, currency: Ledger, wrapped: Ledger, who: AccountId, amount: Balance) -> Result<(), WrapperError> {
    if amount == 0 {
        Err(WrapperError::ZeroAmount)
    } else if currency.free(who) < amount {
        Err(WrapperError::InsufficientBalance)
    } else if transfer_outcome(currency, who, wrapper_account(w), amount, true) is Err {
        Err(WrapperError::TransferFailed)
    } else if wrapped.issuance() + amount > Balance::MAX || (wrapped.total(who) == 0 && amount
        < wrapped.min_balance()) {
        Err(WrapperError::MintFailed)
    } else {
        Ok(())
    }
}

/// What unwrapping `amount` for `who` answers, in the order of the checks.
pub open spec fn unwrap_outcome(w: TokenWrapper, currency: Ledger, wrapped: Ledger, who: AccountId, amount: Balance) -> Result<(), WrapperError> {
    if amount == 0 {
        Err(WrapperError::ZeroAmount)
    } else if wrapped.free(who) < amount {
        Err(WrapperError::InsufficientWrappedBalance)
    } else if transfer_outcome(currency, wrapper_account(w), who, amount, false) is Err {
        Err(WrapperError::TransferFailed)
    } else {
        Ok(())
    }
}

/// What a successful wrap of `amount` by `who` makes of the pallet `s` and of the ledgers
/// `c` (native) and `w` (wrapped): the locked total grows (saturating), the native tokens
/// move from `who` to the pallet's account, as many wrapped tokens are minted to `who`, and
/// no reserved balance changes.
pub open spec fn wrapped_by(
    s: TokenWrapper,
    c: Ledger,
    w: Ledger,
    s2: TokenWrapper,
    c2: Ledger,
    w2: Ledger,
    who: AccountId,
    amount: Balance,
) -> bool {
    let acc = wrapper_account(s);
    &&& s2.total_locked_amount == saturate_u128(s.total_locked_amount + amount)
    &&& s2.pallet_id == s.pallet_id
    &&& s2.events@ == s.events@.push(WrapperEvent::Wrapped { who, amount })
    &&& who != acc ==> c2.free(who) == c.free(who) - amount && c2.free(acc) == c.free(acc) + amount
        && c2.reserved(who) == c.reserved(who) && c2.reserved(acc) == c.reserved(acc) && c2.same_except(
        &c,
        set![who, acc],
    )
    &&& who == acc ==> c2 == c
    &&& c2.issuance() == c.issuance()
    &&& c2.min_balance() == c.min_balance()
    &&& w2.free(who) == w.free(who) + amount
    &&& w2.reserved(who) == w.reserved(who)
    &&& w2.issuance() == w.issuance() + amount
    &&& w2.min_balance() == w.min_balance()
    &&& w2.same_except(&w, set![who])
}

/// What a successful unwrap of `amount` by `who` makes of the pallet `s` and of the ledgers
/// `c` (native) and `w` (wrapped): the locked total falls (not below zero), `amount` wrapped
/// tokens of `who` are burned, as many native tokens move from the pallet's account to
/// `who`, and no reserved balance changes.
pub open spec fn unwrapped_by(
    s: TokenWrapper,
    c: Ledger,
    w: Ledger,
    s2: TokenWrapper,
    c2: Ledger,
    w2: Ledger,
    who: AccountId,
    amount: Balance,
) -> bool {
    let acc = wrapper_account(s);
    &&& s2.total_locked_amount == (if s.total_locked_amount >= amount {
        s.total_locked_amount - amount
    } else {
        0
    })
    &&& s2.pallet_id == s.pallet_id
    &&& s2.events@ == s.events@.push(WrapperEvent::Unwrapped { who, amount })
    &&& who != acc ==> c2.free(who) == c.free(who) + amount && c2.free(acc) == c.free(acc) - amount
        && c2.reserved(who) == c.reserved(who) && c2.reserved(acc) == c.reserved(acc) && c2.same_except(
        &c,
        set![who, acc],
    )
    &&& who == acc ==> c2 == c
    &&& c2.issuance() == c.issuance()
    &&& c2.min_balance() == c.min_balance()
    &&& w2.free(who) == w.free(who) - amount
    &&& w2.reserved(who) == w.reserved(who)
    &&& w2.issuance() == w.issuance() - amount
    &&& w2.min_balance() == w.min_balance()
    &&& w2.same_except(&w, set![who])
}

impl TokenWrapper {
    /// A pallet with nothing locked.
    pub fn new(pallet_id: [u8; 8]) -> (s: Self)
        ensures
            s.pallet_id == pallet_id,
            s.total_locked_amount == 0,
            s.events@ == Seq::<WrapperEvent>::empty(),
    {
        TokenWrapper { pallet_id, total_locked_amount: 0, events: Vec::new() }
    }

    /// `account_id`: the account that holds the locked native tokens.
    pub fn account_id(&self) -> (r: AccountId)
        ensures
            r == wrapper_account(*self),
    {
        pallet_account_id(self.pallet_id)
    }

    /// `total_locked`: the native tokens locked by wrapping.
    pub fn total_locked(&self) -> (r: Balance)
        ensures
            r == self.total_locked_amount,
    {
        self.total_locked_amount
    }

    /// `total_wrapped`: the supply of the wrapped asset.
    pub fn total_wrapped(&self, wrapped: &Ledger) -> (r: Balance)
        ensures
            r == wrapped.issuance(),
    {
        wrapped.total_issuance()
    }

    /// `wrap`: locks `amount` of the signer's native tokens in the pallet's account (keeping
    /// the signer alive) and mints as many wrapped tokens to it. Nothing changes on failure.
    pub fn wrap(&mut self, origin: Origin, currency: &mut Ledger, wrapped: &mut Ledger, amount: Balance) -> (r: Result<(), WrapperError>)
        requires
            old(currency).wf(),
            old(wrapped).wf(),
        ensures
            final(currency).wf(),
            final(wrapped).wf(),
            signer_of(origin) is None ==> r == Err::<(), WrapperError>(WrapperError::BadOrigin),
            signer_of(origin) matches Some(who) ==> r == wrap_outcome(*old(self), *old(currency), *old(wrapped), who, amount),
            r is Err ==> *final(self) == *old(self) && final(currency).same_balances(&*old(currency))
                && final(wrapped).same_balances(&*old(wrapped)),
            r is Ok ==> wrapped_by(
                *old(self),
                *old(currency),
                *old(wrapped),
                *final(self),
                *final(currency),
                *final(wrapped),
                signer_of(origin)->0,
                amount,
            ),
            r is Ok && fully_backed(*old(self), *old(currency), *old(wrapped)) && signer_of(origin)->0
                != wrapper_account(*old(self)) ==> fully_backed(*final(self), *final(currency), *final(wrapped)),
    {
        let who = match ensure_signed(origin) {
            Some(w) => w,
            None => return Err(WrapperError::BadOrigin),
        };
        if amount == 0 {
            return Err(WrapperError::ZeroAmount);
        }
        if currency.free_balance(who) < amount {
            return Err(WrapperError::InsufficientBalance);
        }
        let acc = self.account_id();
        let saved = currency.snapshot();
        match currency.transfer(who, acc, amount, true) {
            Ok(()) => {},
            Err(_) => return Err(WrapperError::TransferFailed),
        }
        match wrapped.mint_into(who, amount) {
            Ok(()) => {},
            Err(_) => {
                *currency = saved;
                return Err(WrapperError::MintFailed);
            },
        }
        self.total_locked_amount = self.total_locked_amount.saturating_add(amount);
        self.events.push(WrapperEvent::Wrapped { who, amount });
        Ok(())
    }

    /// `unwrap`: burns `amount` of the signer's wrapped tokens and returns as many native
    /// tokens from the pallet's account. Nothing changes on failure.
    pub fn unwrap(&mut self, origin: Origin, currency: &mut Ledger, wrapped: &mut Ledger, amount: Balance) -> (r: Result<(), WrapperError>)
        requires
            old(currency).wf(),
            old(wrapped).wf(),
        ensures
            final(currency).wf(),
            final(wrapped).wf(),
            signer_of(origin) is None ==> r == Err::<(), WrapperError>(WrapperError::BadOrigin),
            signer_of(origin) matches Some(who) ==> r == unwrap_outcome(*old(self), *old(currency), *old(wrapped), who, amount),
            r is Err ==> *final(self) == *old(self) && final(currency).same_balances(&*old(currency))
                && final(wrapped).same_balances(&*old(wrapped)),
            r is Ok ==> unwrapped_by(
                *old(self),
                *old(currency),
                *old(wrapped),
                *final(self),
                *final(currency),
                *final(wrapped),
                signer_of(origin)->0,
                amount,
            ),
            r is Ok && fully_backed(*old(self), *old(currency), *old(wrapped)) && signer_of(origin)->0
                != wrapper_account(*old(self)) ==> fully_backed(*final(self), *final(currency), *final(wrapped)),
    {
        let who = match ensure_signed(origin) {
            Some(w) => w,
            None => return Err(WrapperError::BadOrigin),
        };
        if amount == 0 {
            return Err(WrapperError::ZeroAmount);
        }
        if wrapped.free_balance(who) < amount {
            return Err(WrapperError::InsufficientWrappedBalance);
        }
        let acc = self.account_id();
        let saved = wrapped.snapshot();
        match wrapped.burn_from(who, amount) {
            Ok(()) => {},
            Err(_) => return Err(WrapperError::BurnFailed),
        }
        match currency.transfer(acc, who, amount, false) {
            Ok(()) => {},
            Err(_) => {
                *wrapped = saved;
                return Err(WrapperError::TransferFailed);
            },
        }
        self.total_locked_amount = if self.total_locked_amount >= amount {
            self.total_locked_amount - amount
        } else {
            0
        };
        self.events.push(WrapperEvent::Unwrapped { who, amount });
        proof {
            if fully_backed(*old(self), *old(currency), *old(wrapped)) && who != acc {
                assert(old(wrapped).free(who) <= old(wrapped).issuance()) by {
                    old(wrapped).lemma_free_le_issuance(who);
                }
            }
        }
        Ok(())
    }
}

/// Unwrapping what was just wrapped gives every account back its native and wrapped
/// balances, free and reserved, and gives the pallet back its locked total when adding the
/// amount to it did not saturate.
pub proof fn lemma_unwrap_undoes_wrap(
    s0: TokenWrapper,
    c0: Ledger,
    w0: Ledger,
    s1: TokenWrapper,
    c1: Ledger,
    w1: Ledger,
    s2: TokenWrapper,
    c2: Ledger,
    w2: Ledger,
    who: AccountId,
    amount: Balance,
)
    requires
        wrapped_by(s0, c0, w0, s1, c1, w1, who, amount),
        unwrapped_by(s1, c1, w1, s2, c2, w2, who, amount),
    ensures
        c2.same_balances(&c0),
        w2.same_balances(&w0),
        s0.total_locked_amount + amount <= u128::MAX ==> s2.total_locked_amount == s0.total_locked_amount,
        s2.pallet_id == s0.pallet_id,
{
    let acc = wrapper_account(s0);
    assert forall|a: AccountId| #[trigger] c2.account(a) == c0.account(a) by {
        if who != acc && !set![who, acc].contains(a) {
            assert(c2.account(a) == c1.account(a));
            assert(c1.account(a) == c0.account(a));
        }
    }
    assert forall|a: AccountId| #[trigger] w2.account(a) == w0.account(a) by {
        if a != who {
            assert(!set![who].contains(a));
            assert(w2.account(a) == w1.account(a));
            assert(w1.account(a) == w0.account(a));
        }
    }
}

/// What a wrap or an unwrap needs: a wrap of nothing fails with `ZeroAmount`, and one beyond
/// the free native balance with `InsufficientBalance`; a wrap that succeeds moves a positive
/// amount that the account holds free and that the wrapped issuance can take. An unwrap of
/// nothing fails with `ZeroAmount`, and one beyond the free wrapped balance with
/// `InsufficientWrappedBalance`.
pub proof fn lemma_wrap_needs(w: TokenWrapper, currency: Ledger, wrapped: Ledger, who: AccountId, amount: Balance)
    ensures
        amount == 0 ==> wrap_outcome(w, currency, wrapped, who, amount) == Err::<(), WrapperError>(WrapperError::ZeroAmount),
        amount > 0 && currency.free(who) < amount ==> wrap_outcome(w, currency, wrapped, who, amount) == Err::<
            (),
            WrapperError,
        >(WrapperError::InsufficientBalance),
        wrap_outcome(w, currency, wrapped, who, amount) is Ok ==> amount > 0 && currency.free(who) >= amount
            && wrapped.issuance() + amount <= Balance::MAX,
        amount == 0 ==> unwrap_outcome(w, currency, wrapped, who, amount) == Err::<(), WrapperError>(
            WrapperError::ZeroAmount,
        ),
        amount > 0 && wrapped.free(who) < amount ==> unwrap_outcome(w, currency, wrapped, who, amount) == Err::<
            (),
            WrapperError,
        >(WrapperError::InsufficientWrappedBalance),
        unwrap_outcome(w, currency, wrapped, who, amount) is Ok ==> amount > 0 && wrapped.free(who) >= amount,
{
}

} // verus!
