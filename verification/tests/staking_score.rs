use std::collections::HashMap;

use pezkuwi_pallets::primitives::Origin;
use pezkuwi_pallets::staking_score::{
    BenchmarkStakingInfoProvider, StakingDetails, StakingInfoProvider, StakingScore, StakingScoreAt,
    StakingScoreError, StakingScoreEvent, StakingScoreProvider, MONTH_IN_BLOCKS, UNITS,
};

const USER_STASH: u64 = 10;

/// The staking system of the tests: what each stash has bonded.
struct Staking {
    bonded: HashMap<u64, u128>,
}

impl StakingInfoProvider for Staking {
    fn staking_details_of(&self, who: u64) -> Option<StakingDetails> {
        self.get_staking_details(who)
    }

    fn get_staking_details(&self, who: u64) -> Option<StakingDetails> {
        self.bonded.get(&who).map(|amount| StakingDetails {
            staked_amount: *amount,
            nominations_count: 0,
            unlocking_chunks_count: 0,
        })
    }
}

fn bond(amount: u128) -> Staking {
    let mut bonded = HashMap::new();
    bonded.insert(USER_STASH, amount);
    Staking { bonded }
}

#[test]
fn zero_stake_should_return_zero_score() {
    let pallet = StakingScore::new();
    let staking = Staking { bonded: HashMap::new() };
    assert_eq!(pallet.get_staking_score(&staking, USER_STASH, 1).0, 0);
}

#[test]
fn score_is_calculated_correctly_without_time_tracking() {
    let pallet = StakingScore::new();
    let staking = bond(50 * UNITS);
    assert_eq!(pallet.get_staking_score(&staking, USER_STASH, 1).0, 20);
}

#[test]
fn start_score_tracking_works_and_enables_duration_multiplier() {
    let mut pallet = StakingScore::new();
    let initial_block = 10u64;
    let staking = bond(500 * UNITS);
    assert!(pallet.start_score_tracking(&staking, Origin::Signed(USER_STASH), initial_block).is_ok());
    assert_eq!(pallet.get_staking_score(&staking, USER_STASH, initial_block).0, 40);
    let target_4m = initial_block + (4 * MONTH_IN_BLOCKS) as u64;
    let (score_4m, duration_4m) = pallet.get_staking_score(&staking, USER_STASH, target_4m);
    assert_eq!(duration_4m, target_4m - initial_block);
    assert_eq!(score_4m, 56);
    let target_13m = initial_block + (13 * MONTH_IN_BLOCKS) as u64;
    let (score_13m, duration_13m) = pallet.get_staking_score(&staking, USER_STASH, target_13m);
    assert_eq!(duration_13m, target_13m - initial_block);
    assert_eq!(score_13m, 80);
}

#[test]
fn get_staking_score_works_without_explicit_tracking() {
    let pallet = StakingScore::new();
    let staking = bond(751 * UNITS);
    assert_eq!(pallet.get_staking_score(&staking, USER_STASH, 1).0, 50);
    assert_eq!(pallet.get_staking_score(&staking, USER_STASH, 1_000_000_000).0, 50);
}

#[test]
fn staking_score_tiers_and_cap() {
    let mut pallet = StakingScore::new();
    assert_eq!(pallet.get_staking_score(&bond(UNITS - 1), USER_STASH, 1), (0, 0));
    assert_eq!(pallet.get_staking_score(&bond(100 * UNITS), USER_STASH, 1).0, 20);
    assert_eq!(pallet.get_staking_score(&bond(101 * UNITS), USER_STASH, 1).0, 30);
    assert_eq!(pallet.get_staking_score(&bond(250 * UNITS), USER_STASH, 1).0, 30);
    assert_eq!(pallet.get_staking_score(&bond(750 * UNITS), USER_STASH, 1).0, 40);
    let staking = bond(751 * UNITS);
    assert!(pallet.start_score_tracking(&staking, Origin::Signed(USER_STASH), 0).is_ok());
    assert_eq!(pallet.get_staking_score(&staking, USER_STASH, 12 * MONTH_IN_BLOCKS as u64), (100, 12 * MONTH_IN_BLOCKS as u64));
    assert_eq!(pallet.get_staking_score(&staking, USER_STASH, 6 * MONTH_IN_BLOCKS as u64).0, 85);
    assert_eq!(pallet.get_staking_score(&staking, USER_STASH, MONTH_IN_BLOCKS as u64).0, 60);
    assert_eq!(
        *pallet.events.last().unwrap(),
        StakingScoreEvent::ScoreTrackingStarted { who: USER_STASH, start_block: 0 }
    );
}

#[test]
fn start_score_tracking_errors() {
    let mut pallet = StakingScore::new();
    let staking = bond(0);
    assert_eq!(pallet.start_score_tracking(&staking, Origin::Signed(USER_STASH), 1), Err(StakingScoreError::NoStakeFound));
    assert_eq!(pallet.start_score_tracking(&staking, Origin::Signed(11), 1), Err(StakingScoreError::NoStakeFound));
    assert_eq!(pallet.start_score_tracking(&staking, Origin::Root, 1), Err(StakingScoreError::BadOrigin));
    let staking = bond(UNITS);
    assert!(pallet.start_score_tracking(&staking, Origin::Signed(USER_STASH), 1).is_ok());
    assert_eq!(
        pallet.start_score_tracking(&staking, Origin::Signed(USER_STASH), 2),
        Err(StakingScoreError::TrackingAlreadyStarted)
    );
    assert_eq!(pallet.staking_start_block(USER_STASH), Some(1));
}

#[test]
fn provider_view_and_benchmark_stake() {
    let pallet = StakingScore::new();
    let info = BenchmarkStakingInfoProvider;
    let view = StakingScoreAt { pallet: &pallet, info: &info, now: 5 };
    assert_eq!(view.get_staking_score(1), (50, 0));
    assert_eq!(info.get_staking_details(1).unwrap().staked_amount, 1000 * UNITS);
}
