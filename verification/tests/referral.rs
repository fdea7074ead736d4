use pezkuwi_pallets::identity_kyc::{IdentityKyc, KycConfig, KycLevel, OnKycApproved};
use pezkuwi_pallets::primitives::Origin;
use pezkuwi_pallets::referral::{
    InviterProvider, Referral, ReferralError, ReferralEvent, ReferralScoreProvider,
};

fn new_test_ext() -> (Referral, IdentityKyc) {
    (
        Referral::new(),
        IdentityKyc::new(KycConfig { application_deposit: 100, max_string_length: 50, max_cid_length: 100 }),
    )
}

fn approve(kyc: &mut IdentityKyc, who: u64) {
    kyc.kyc_statuses.insert(who, KycLevel::Approved);
}

#[test]
fn initiate_referral_works() {
    let (mut r, _) = new_test_ext();
    assert!(r.initiate_referral(Origin::Signed(1), 2).is_ok());
    assert_eq!(r.pending_referrals(2), Some(1));
    assert_eq!(*r.events.last().unwrap(), ReferralEvent::ReferralInitiated { referrer: 1, referred: 2 });
}

#[test]
fn initiate_referral_fails_for_self_referral() {
    let (mut r, _) = new_test_ext();
    assert_eq!(r.initiate_referral(Origin::Signed(1), 1), Err(ReferralError::SelfReferral));
}

#[test]
fn initiate_referral_fails_if_already_referred() {
    let (mut r, _) = new_test_ext();
    assert!(r.initiate_referral(Origin::Signed(1), 2).is_ok());
    assert_eq!(r.initiate_referral(Origin::Signed(3), 2), Err(ReferralError::AlreadyReferred));
}

#[test]
fn on_kyc_approved_hook_works_when_referral_exists() {
    let (mut r, mut kyc) = new_test_ext();
    let (referrer, referred) = (1, 2);
    assert!(r.initiate_referral(Origin::Signed(referrer), referred).is_ok());
    approve(&mut kyc, referred);
    r.on_kyc_approved(&kyc, referred, 1);
    assert_eq!(r.pending_referrals(referred), None);
    assert_eq!(r.referral_count(referrer), 1);
    let info = r.referrals(referred).unwrap();
    assert_eq!(info.referrer, referrer);
    assert_eq!(
        *r.events.last().unwrap(),
        ReferralEvent::ReferralConfirmed { referrer, referred, new_referrer_count: 1 }
    );
}

#[test]
fn on_kyc_approved_hook_does_nothing_when_no_referral() {
    let (mut r, kyc) = new_test_ext();
    r.on_kyc_approved(&kyc, 5, 1);
    assert_eq!(r.referral_count.len(), 0);
    assert_eq!(r.referrals.len(), 0);
}

#[test]
fn referral_score_tier_0_to_5() {
    let (mut r, _) = new_test_ext();
    assert_eq!(r.get_referral_score(1), 0);
    r.referral_count.insert(1, 1);
    assert_eq!(r.get_referral_score(1), 4);
    r.referral_count.insert(1, 5);
    assert_eq!(r.get_referral_score(1), 20);
}

#[test]
fn referral_score_tier_6_to_20() {
    let (mut r, _) = new_test_ext();
    r.referral_count.insert(1, 6);
    assert_eq!(r.get_referral_score(1), 22);
    r.referral_count.insert(1, 10);
    assert_eq!(r.get_referral_score(1), 30);
    r.referral_count.insert(1, 20);
    assert_eq!(r.get_referral_score(1), 50);
}

#[test]
fn referral_score_capped_at_50() {
    let (mut r, _) = new_test_ext();
    r.referral_count.insert(1, 21);
    assert_eq!(r.get_referral_score(1), 50);
    r.referral_count.insert(1, 100);
    assert_eq!(r.get_referral_score(1), 50);
}

#[test]
fn get_inviter_returns_correct_referrer() {
    let (mut r, mut kyc) = new_test_ext();
    assert!(r.initiate_referral(Origin::Signed(1), 2).is_ok());
    approve(&mut kyc, 2);
    r.on_kyc_approved(&kyc, 2, 1);
    assert_eq!(r.get_inviter(2), Some(1));
}

#[test]
fn get_inviter_returns_none_for_non_referred() {
    let (r, _) = new_test_ext();
    assert_eq!(r.get_inviter(99), None);
}

#[test]
fn multiple_referrals_for_same_referrer() {
    let (mut r, mut kyc) = new_test_ext();
    for referred in [2u64, 3, 4] {
        assert!(r.initiate_referral(Origin::Signed(1), referred).is_ok());
    }
    for referred in [2u64, 3, 4] {
        approve(&mut kyc, referred);
    }
    for referred in [2u64, 3, 4] {
        r.on_kyc_approved(&kyc, referred, 1);
    }
    assert_eq!(r.referral_count(1), 3);
}

#[test]
fn referral_info_stores_block_number() {
    let (mut r, mut kyc) = new_test_ext();
    let block_number = 42;
    assert!(r.initiate_referral(Origin::Signed(1), 2).is_ok());
    approve(&mut kyc, 2);
    r.on_kyc_approved(&kyc, 2, block_number);
    let info = r.referrals(2).unwrap();
    assert_eq!(info.created_at, block_number);
    assert_eq!(info.referrer, 1);
}

#[test]
fn events_emitted_correctly() {
    let (mut r, mut kyc) = new_test_ext();
    assert!(r.initiate_referral(Origin::Signed(1), 2).is_ok());
    assert!(r.events.iter().any(|e| matches!(e, ReferralEvent::ReferralInitiated { .. })));
    approve(&mut kyc, 2);
    r.on_kyc_approved(&kyc, 2, 1);
    assert!(r.events.iter().any(|e| matches!(e, ReferralEvent::ReferralConfirmed { .. })));
}

#[test]
fn complete_referral_flow_integration() {
    let (mut r, mut kyc) = new_test_ext();
    assert!(r.initiate_referral(Origin::Signed(1), 2).is_ok());
    assert_eq!(r.pending_referrals(2), Some(1));
    approve(&mut kyc, 2);
    r.on_kyc_approved(&kyc, 2, 1);
    assert_eq!(r.pending_referrals(2), None);
    assert_eq!(r.referral_count(1), 1);
    assert!(r.referrals(2).is_some());
    assert_eq!(r.get_inviter(2), Some(1));
    assert_eq!(r.get_referral_score(1), 4);
}

#[test]
fn storage_consistency_multiple_operations() {
    let (mut r, mut kyc) = new_test_ext();
    assert!(r.initiate_referral(Origin::Signed(1), 10).is_ok());
    assert!(r.initiate_referral(Origin::Signed(1), 11).is_ok());
    assert!(r.initiate_referral(Origin::Signed(2), 12).is_ok());
    for referred in [10u64, 11, 12] {
        approve(&mut kyc, referred);
        r.on_kyc_approved(&kyc, referred, 1);
    }
    assert_eq!(r.referral_count(1), 2);
    assert_eq!(r.referral_count(2), 1);
    assert_eq!(r.referrals(10).unwrap().referrer, 1);
    assert_eq!(r.referrals(11).unwrap().referrer, 1);
    assert_eq!(r.referrals(12).unwrap().referrer, 2);
}

#[test]
fn referral_not_confirmed_without_approved_kyc() {
    let (mut r, kyc) = new_test_ext();
    assert!(r.initiate_referral(Origin::Signed(1), 2).is_ok());
    r.on_kyc_approved(&kyc, 2, 1);
    assert_eq!(r.pending_referrals(2), Some(1));
    assert_eq!(r.referral_count(1), 0);
    assert_eq!(r.initiate_referral(Origin::Unsigned, 3), Err(ReferralError::BadOrigin));
}
