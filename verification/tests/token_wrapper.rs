use pezkuwi_pallets::ledger::Ledger;
use pezkuwi_pallets::primitives::Origin;
use pezkuwi_pallets::token_wrapper::{TokenWrapper, WrapperError, WrapperEvent};

struct Env {
    wrapper: TokenWrapper,
    balances: Ledger,
    assets: Ledger,
}

/// Native balances 10000, 5000 and 3000 for accounts 1, 2 and 3, an empty wrapped asset,
/// and an existential deposit of 1 on both.
fn new_test_ext() -> Env {
    let mut balances = Ledger::new(1);
    assert_eq!(balances.mint_into(1, 10000), Ok(()));
    assert_eq!(balances.mint_into(2, 5000), Ok(()));
    assert_eq!(balances.mint_into(3, 3000), Ok(()));
    Env { wrapper: TokenWrapper::new(*b"py/wrper"), balances, assets: Ledger::new(1) }
}

impl Env {
    fn wrap(&mut self, who: u64, amount: u128) -> Result<(), WrapperError> {
        self.wrapper.wrap(Origin::Signed(who), &mut self.balances, &mut self.assets, amount)
    }

    fn unwrap(&mut self, who: u64, amount: u128) -> Result<(), WrapperError> {
        self.wrapper.unwrap(Origin::Signed(who), &mut self.balances, &mut self.assets, amount)
    }
}

#[test]
fn wrap_works() {
    let mut env = new_test_ext();
    let user = 1;
    let amount = 1000;
    assert_eq!(env.balances.free_balance(user), 10000);
    assert_eq!(env.assets.free_balance(user), 0);
    assert_eq!(env.wrap(user, amount), Ok(()));
    assert_eq!(env.balances.free_balance(user), 10000 - amount);
    assert_eq!(env.assets.free_balance(user), amount);
    assert_eq!(env.wrapper.total_locked(), amount);
    assert_eq!(env.balances.free_balance(env.wrapper.account_id()), amount);
    assert_eq!(env.wrapper.events.last(), Some(&WrapperEvent::Wrapped { who: user, amount }));
}

#[test]
fn unwrap_works() {
    let mut env = new_test_ext();
    let user = 1;
    let amount = 1000;
    assert_eq!(env.wrap(user, amount), Ok(()));
    let native_balance = env.balances.free_balance(user);
    assert_eq!(env.unwrap(user, amount), Ok(()));
    assert_eq!(env.balances.free_balance(user), native_balance + amount);
    assert_eq!(env.assets.free_balance(user), 0);
    assert_eq!(env.wrapper.total_locked(), 0);
    assert_eq!(env.wrapper.total_wrapped(&env.assets), 0);
}

#[test]
fn wrap_fails_insufficient_balance() {
    let mut env = new_test_ext();
    assert_eq!(env.wrap(1, 20000), Err(WrapperError::InsufficientBalance));
    assert_eq!(env.balances.free_balance(1), 10000);
    assert_eq!(env.wrapper.total_locked(), 0);
}

#[test]
fn unwrap_fails_insufficient_wrapped_balance() {
    let mut env = new_test_ext();
    assert_eq!(env.unwrap(1, 1000), Err(WrapperError::InsufficientWrappedBalance));
}

#[test]
fn wrap_and_unwrap_refuse_zero_and_unsigned() {
    let mut env = new_test_ext();
    assert_eq!(env.wrap(1, 0), Err(WrapperError::ZeroAmount));
    assert_eq!(env.unwrap(1, 0), Err(WrapperError::ZeroAmount));
    assert_eq!(
        env.wrapper.wrap(Origin::Root, &mut env.balances, &mut env.assets, 10),
        Err(WrapperError::BadOrigin)
    );
    assert_eq!(
        env.wrapper.unwrap(Origin::Unsigned, &mut env.balances, &mut env.assets, 10),
        Err(WrapperError::BadOrigin)
    );
}

#[test]
fn wrapping_the_whole_balance_would_kill_the_account() {
    let mut env = new_test_ext();
    // The transfer keeps the signer alive, so its last unit cannot be wrapped.
    assert_eq!(env.wrap(3, 3000), Err(WrapperError::TransferFailed));
    assert_eq!(env.wrap(3, 2999), Ok(()));
    assert_eq!(env.balances.free_balance(3), 1);
}

#[test]
fn unwrap_undoes_wrap_and_supply_stays_backed() {
    let mut env = new_test_ext();
    assert_eq!(env.wrap(1, 700), Ok(()));
    assert_eq!(env.wrap(2, 300), Ok(()));
    assert_eq!(env.wrapper.total_wrapped(&env.assets), 1000);
    assert_eq!(env.wrapper.total_locked(), 1000);
    assert_eq!(env.balances.free_balance(env.wrapper.account_id()), 1000);
    assert_eq!(env.unwrap(2, 300), Ok(()));
    assert_eq!(env.balances.free_balance(2), 5000);
    assert_eq!(env.assets.free_balance(2), 0);
    assert_eq!(env.wrapper.total_wrapped(&env.assets), 700);
    assert_eq!(env.wrapper.total_locked(), 700);
    assert_eq!(env.balances.free_balance(env.wrapper.account_id()), 700);
}

#[test]
fn wrap_and_unwrap_leave_reserved_balances_alone() {
    let mut env = new_test_ext();
    assert_eq!(env.balances.reserve(1, 500), Ok(()));
    assert_eq!(env.wrap(1, 1000), Ok(()));
    assert_eq!(env.balances.reserved_balance(1), 500);
    assert_eq!(env.balances.free_balance(1), 8500);
    assert_eq!(env.unwrap(1, 1000), Ok(()));
    assert_eq!(env.balances.reserved_balance(1), 500);
    assert_eq!(env.balances.free_balance(1), 9500);
    assert_eq!(env.wrapper.total_locked(), 0);
}
