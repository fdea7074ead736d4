use pezkuwi_pallets::primitives::{RuntimeDbWeight, Weight};
use pezkuwi_pallets::perwerde::{SubstrateWeight as PerwerdeWeight, WeightInfo as PerwerdeWeightInfo};
use pezkuwi_pallets::pez_treasury::{SubstrateWeight as TreasuryWeight, WeightInfo as TreasuryWeightInfo};
use pezkuwi_pallets::{hemwelati_odul, identity_kyc, referral, staking_score, trust};

const ROCKS_DB: RuntimeDbWeight = RuntimeDbWeight { read: 25_000_000, write: 100_000_000 };
const NO_DB: RuntimeDbWeight = RuntimeDbWeight { read: 0, write: 0 };

fn w(ref_time: u64, proof_size: u64) -> Weight {
    Weight { ref_time, proof_size }
}

#[test]
fn treasury_weights() {
    assert_eq!(TreasuryWeight::initialize_treasury(ROCKS_DB), w(9_749_000 + 25_000_000 + 300_000_000, 42));
    assert_eq!(TreasuryWeight::force_genesis_distribution(ROCKS_DB), w(62_700_000 + 150_000_000 + 600_000_000, 615));
    assert_eq!(TreasuryWeight::release_monthly_funds(ROCKS_DB), w(94_980_000 + 250_000_000 + 900_000_000, 772));
    assert_eq!(TreasuryWeight::release_monthly_funds(NO_DB), w(94_980_000, 772));
}

#[test]
fn perwerde_weights() {
    assert_eq!(
        PerwerdeWeight::create_course(ROCKS_DB, 14, 14, 18),
        w(30_763_000 + 2_000 * 14 + 1_000 * 14 + 2_000 * 18 + 25_000_000 + 200_000_000, 0)
    );
    assert_eq!(PerwerdeWeight::enroll(NO_DB), w(36_000_000, 0));
    assert_eq!(PerwerdeWeight::complete_course(ROCKS_DB), w(34_000_000 + 50_000_000 + 200_000_000, 0));
    assert_eq!(PerwerdeWeight::archive_course(ROCKS_DB), w(25_000_000 + 25_000_000 + 100_000_000, 0));
    assert_eq!(PerwerdeWeight::benchmark_get_perwerde_score(ROCKS_DB, 1000), w(9_064_500 + 1_000_000 + 25_000_000, 0));
}

#[test]
fn hemwelati_kyc_referral_staking_trust_weights() {
    assert_eq!(
        <hemwelati_odul::SubstrateWeight as hemwelati_odul::WeightInfo>::claim_reward(ROCKS_DB),
        w(45_000_000 + 75_000_000 + 200_000_000, 0)
    );
    assert_eq!(
        <hemwelati_odul::SubstrateWeight as hemwelati_odul::WeightInfo>::complete_period(NO_DB),
        w(20_000_000, 0)
    );
    assert_eq!(
        <identity_kyc::SubstrateWeight as identity_kyc::WeightInfo>::set_identity(ROCKS_DB),
        w(10_000 + 100_000_000, 0)
    );
    assert_eq!(
        <referral::SubstrateWeight as referral::WeightInfo>::hook_on_kyc_approved_not_found(ROCKS_DB),
        w(10_000_000 + 25_000_000, 0)
    );
    assert_eq!(
        <staking_score::SubstrateWeight as staking_score::WeightInfo>::start_score_tracking(ROCKS_DB),
        w(30_000_000 + 50_000_000 + 100_000_000, 0)
    );
    assert_eq!(
        <trust::SubstrateWeight as trust::WeightInfo>::force_recalculate_trust_score(ROCKS_DB),
        w(10_000 + 100_000_000, 0)
    );
}

#[test]
fn weights_saturate() {
    let huge = RuntimeDbWeight { read: u64::MAX / 2, write: u64::MAX / 2 };
    assert_eq!(TreasuryWeight::release_monthly_funds(huge), w(u64::MAX, 772));
    assert_eq!(Weight::from_parts(u64::MAX, 1).saturating_add(Weight::from_parts(1, 2)), w(u64::MAX, 3));
    assert_eq!(Weight::from_parts(3, u64::MAX).saturating_mul(2), w(6, u64::MAX));
}
