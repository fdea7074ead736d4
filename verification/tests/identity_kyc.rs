use pezkuwi_pallets::identity_kyc::{IdentityKyc, KycConfig, KycError, KycEvent, KycLevel};
use pezkuwi_pallets::ledger::{Ledger, LedgerError};
use pezkuwi_pallets::primitives::Origin;
use pezkuwi_pallets::referral::Referral;
use pezkuwi_pallets::tiki::{TikiConfig, TikiPallet};

const DEPOSIT: u128 = 100;

struct Env {
    kyc: IdentityKyc,
    balances: Ledger,
    tiki: TikiPallet,
    referral: Referral,
}

fn new_test_ext() -> Env {
    let mut balances = Ledger::new(1);
    for who in 1..=5u64 {
        balances.mint_into(who, 10_000).unwrap();
    }
    Env {
        kyc: IdentityKyc::new(KycConfig { application_deposit: DEPOSIT, max_string_length: 50, max_cid_length: 100 }),
        balances,
        tiki: TikiPallet::new(TikiConfig { collection_id: 0, max_tikis_per_user: 100 }, 256),
        referral: Referral::new(),
    }
}

fn apply(env: &mut Env, user: u64) {
    env.kyc.set_identity(Origin::Signed(user), vec![], vec![]).unwrap();
    env.kyc.apply_for_kyc(&mut env.balances, Origin::Signed(user), vec![], vec![]).unwrap();
}

#[test]
fn set_identity_works() {
    let mut env = new_test_ext();
    let user = 1;
    let name = b"Pezkuwi".to_vec();
    let email = b"info@pezkuwi.com".to_vec();
    assert!(env.kyc.identity_of(user).is_none());
    assert!(env.kyc.set_identity(Origin::Signed(user), name.clone(), email.clone()).is_ok());
    let stored = env.kyc.identity_of(user).unwrap();
    assert_eq!(stored.name, name);
    assert_eq!(stored.email, email);
    assert_eq!(*env.kyc.events.last().unwrap(), KycEvent::IdentitySet { who: user });
}

#[test]
fn apply_for_kyc_works() {
    let mut env = new_test_ext();
    let user = 1;
    env.kyc.set_identity(Origin::Signed(user), b"Pezkuwi".to_vec(), b"info@pezkuwi.com".to_vec()).unwrap();
    let cids = vec![b"cid1".to_vec()];
    let notes = b"Application notes".to_vec();
    assert_eq!(env.kyc.kyc_status_of(user), KycLevel::NotStarted);
    assert_eq!(env.balances.reserved_balance(user), 0);
    assert!(env.kyc.apply_for_kyc(&mut env.balances, Origin::Signed(user), cids.clone(), notes.clone()).is_ok());
    assert_eq!(env.kyc.kyc_status_of(user), KycLevel::Pending);
    let app = env.kyc.pending_application_of(user).unwrap();
    assert_eq!(app.cids, cids);
    assert_eq!(app.notes, notes);
    assert_eq!(env.balances.reserved_balance(user), DEPOSIT);
    assert_eq!(*env.kyc.events.last().unwrap(), KycEvent::KycApplied { who: user });
}

#[test]
fn apply_for_kyc_fails_if_no_identity() {
    let mut env = new_test_ext();
    assert_eq!(
        env.kyc.apply_for_kyc(&mut env.balances, Origin::Signed(1), vec![], vec![]),
        Err(KycError::IdentityNotFound)
    );
    assert_eq!(env.balances.reserved_balance(1), 0);
}

#[test]
fn apply_for_kyc_fails_if_already_pending() {
    let mut env = new_test_ext();
    apply(&mut env, 1);
    assert_eq!(
        env.kyc.apply_for_kyc(&mut env.balances, Origin::Signed(1), vec![], vec![]),
        Err(KycError::KycApplicationAlreadyExists)
    );
    assert_eq!(env.balances.reserved_balance(1), DEPOSIT);
}

#[test]
fn approve_kyc_works() {
    let mut env = new_test_ext();
    let user = 1;
    apply(&mut env, user);
    assert_eq!(env.balances.reserved_balance(user), DEPOSIT);
    assert!(env.kyc.approve_kyc(&mut env.balances, &mut env.tiki, &mut env.referral, Origin::Root, user, 1).is_ok());
    assert_eq!(env.balances.reserved_balance(user), 0);
    assert!(env.kyc.pending_application_of(user).is_none());
    assert_eq!(env.kyc.kyc_status_of(user), KycLevel::Approved);
    assert_eq!(*env.kyc.events.last().unwrap(), KycEvent::KycApproved { who: user });
    // approval mints the citizenship NFT
    assert!(env.tiki.is_citizen(user));
}

#[test]
fn approve_kyc_fails_for_bad_origin() {
    let mut env = new_test_ext();
    apply(&mut env, 1);
    assert_eq!(
        env.kyc.approve_kyc(&mut env.balances, &mut env.tiki, &mut env.referral, Origin::Signed(2), 1, 1),
        Err(KycError::BadOrigin)
    );
    assert_eq!(env.kyc.kyc_status_of(1), KycLevel::Pending);
}

#[test]
fn revoke_kyc_works() {
    let mut env = new_test_ext();
    let user = 1;
    apply(&mut env, user);
    env.kyc.approve_kyc(&mut env.balances, &mut env.tiki, &mut env.referral, Origin::Root, user, 1).unwrap();
    assert_eq!(env.kyc.kyc_status_of(user), KycLevel::Approved);
    assert!(env.kyc.revoke_kyc(Origin::Root, user).is_ok());
    assert_eq!(env.kyc.kyc_status_of(user), KycLevel::Revoked);
    assert_eq!(*env.kyc.events.last().unwrap(), KycEvent::KycRevoked { who: user });
}

#[test]
fn reject_kyc_slashes_deposit_and_allows_reapplying() {
    let mut env = new_test_ext();
    let user = 1;
    apply(&mut env, user);
    let issuance = env.balances.total_issuance();
    assert!(env.kyc.reject_kyc(&mut env.balances, Origin::Root, user).is_ok());
    assert_eq!(env.kyc.kyc_status_of(user), KycLevel::Rejected);
    assert_eq!(env.balances.reserved_balance(user), 0);
    assert_eq!(env.balances.free_balance(user), 10_000 - DEPOSIT);
    assert_eq!(env.balances.total_issuance(), issuance - DEPOSIT);
    assert!(env.kyc.apply_for_kyc(&mut env.balances, Origin::Signed(user), vec![], vec![]).is_ok());
    assert_eq!(env.kyc.kyc_status_of(user), KycLevel::Pending);
}

#[test]
fn kyc_review_errors() {
    let mut env = new_test_ext();
    assert_eq!(
        env.kyc.approve_kyc(&mut env.balances, &mut env.tiki, &mut env.referral, Origin::Root, 3, 1),
        Err(KycError::CannotApproveKycInCurrentState)
    );
    assert_eq!(env.kyc.reject_kyc(&mut env.balances, Origin::Root, 3), Err(KycError::CannotRejectKycInCurrentState));
    assert_eq!(env.kyc.revoke_kyc(Origin::Root, 3), Err(KycError::CannotRevokeKycInCurrentState));
    assert_eq!(env.kyc.revoke_kyc(Origin::Signed(3), 3), Err(KycError::BadOrigin));
    env.kyc.set_identity(Origin::Signed(3), vec![], vec![]).unwrap();
    assert_eq!(env.kyc.set_identity(Origin::Signed(3), vec![], vec![]), Err(KycError::IdentityAlreadyExists));
    assert_eq!(env.kyc.set_identity(Origin::Unsigned, vec![], vec![]), Err(KycError::BadOrigin));
}

#[test]
fn apply_for_kyc_fails_without_deposit() {
    let mut env = new_test_ext();
    env.kyc.set_identity(Origin::Signed(9), vec![], vec![]).unwrap();
    assert_eq!(
        env.kyc.apply_for_kyc(&mut env.balances, Origin::Signed(9), vec![], vec![]),
        Err(KycError::Currency(LedgerError::InsufficientBalance))
    );
    assert_eq!(env.kyc.kyc_status_of(9), KycLevel::NotStarted);
}

#[test]
fn approval_confirms_a_pending_referral() {
    let mut env = new_test_ext();
    assert!(env.referral.initiate_referral(Origin::Signed(9), 1).is_ok());
    apply(&mut env, 1);
    assert!(env.kyc.approve_kyc(&mut env.balances, &mut env.tiki, &mut env.referral, Origin::Root, 1, 42).is_ok());
    assert_eq!(env.referral.referral_count(9), 1);
    assert_eq!(env.referral.pending_referrals(1), None);
    assert_eq!(env.referral.referrals(1).map(|i| (i.referrer, i.created_at)), Some((9, 42)));
    assert!(env.tiki.is_citizen(1));
}
