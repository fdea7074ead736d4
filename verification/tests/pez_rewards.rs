use pezkuwi_pallets::ledger::Ledger;
use pezkuwi_pallets::pez_rewards::{
    EpochState, GenesisConfig, PezRewards, RewardsConfig, RewardsError, RewardsEvent, BLOCKS_PER_EPOCH, CLAIM_PERIOD_BLOCKS,
};
use pezkuwi_pallets::primitives::Origin;
use pezkuwi_pallets::trust::{TrustConfig, TrustPallet};

const ALICE: u64 = 1;
const BOB: u64 = 2;
const CHARLIE: u64 = 3;
const CLAWBACK: u64 = 999;
const POT_FUNDS: u128 = 1_000_000_000_000_000;
const START: u64 = 1;

struct Env {
    rewards: PezRewards,
    assets: Ledger,
    trust: TrustPallet,
    now: u64,
}

/// Rewards initialized at block 1, the incentive pot holding 10^15 units, and the trust
/// scores 100, 50 and 75 for accounts 1, 2 and 3.
fn new_test_ext() -> Env {
    let mut rewards = PezRewards::new(RewardsConfig { incentive_pot_id: *b"pez/rpot", clawback_recipient: CLAWBACK });
    let mut assets = Ledger::new(1);
    let pot = rewards.incentive_pot_account_id();
    assert_eq!(assets.mint_into(pot, POT_FUNDS), Ok(()));
    let mut trust = TrustPallet::new(TrustConfig { score_multiplier_base: 1, update_interval: 100 });
    trust.scores.insert(ALICE, 100);
    trust.scores.insert(BOB, 50);
    trust.scores.insert(CHARLIE, 75);
    assert_eq!(rewards.initialize_rewards_system(Origin::Root, START), Ok(()));
    Env { rewards, assets, trust, now: START }
}

impl Env {
    fn record(&mut self, who: u64) -> Result<(), RewardsError> {
        self.rewards.record_trust_score(&self.trust, Origin::Signed(who))
    }

    fn advance_to_epoch_end(&mut self) {
        self.now = self.rewards.get_current_epoch_info().epoch_start_block + BLOCKS_PER_EPOCH as u64;
    }

    fn advance_to_claim_period_end(&mut self) {
        self.now += CLAIM_PERIOD_BLOCKS as u64;
    }

    fn finalize(&mut self) -> Result<(), RewardsError> {
        self.rewards.finalize_epoch(Origin::Root, &mut self.assets, self.now)
    }

    fn claim(&mut self, who: u64, e: u32) -> Result<(), RewardsError> {
        self.rewards.claim_reward(Origin::Signed(who), &mut self.assets, e, self.now)
    }

    fn pot_balance(&self) -> u128 {
        self.assets.free_balance(self.rewards.incentive_pot_account_id())
    }
}

#[test]
fn initialize_rewards_system_works() {
    let env = new_test_ext();
    let epoch_info = env.rewards.get_current_epoch_info();
    assert_eq!(epoch_info.current_epoch, 0);
    assert_eq!(epoch_info.total_epochs_completed, 0);
    assert_eq!(epoch_info.epoch_start_block, START);
    assert_eq!(env.rewards.epoch_status(0), EpochState::Open);
}

#[test]
fn cannot_initialize_twice() {
    let mut env = new_test_ext();
    assert_eq!(env.rewards.initialize_rewards_system(Origin::Root, 50), Err(RewardsError::AlreadyInitialized));
    assert_eq!(env.rewards.get_current_epoch_info().epoch_start_block, START);
}

#[test]
fn record_trust_score_works() {
    let mut env = new_test_ext();
    assert_eq!(env.record(ALICE), Ok(()));
    assert_eq!(env.rewards.get_user_trust_score_for_epoch(0, ALICE), Some(100));
}

#[test]
fn multiple_users_can_record_scores() {
    let mut env = new_test_ext();
    assert_eq!(env.record(ALICE), Ok(()));
    assert_eq!(env.record(BOB), Ok(()));
    assert_eq!(env.record(CHARLIE), Ok(()));
    assert_eq!(env.rewards.get_user_trust_score_for_epoch(0, ALICE), Some(100));
    assert_eq!(env.rewards.get_user_trust_score_for_epoch(0, BOB), Some(50));
    assert_eq!(env.rewards.get_user_trust_score_for_epoch(0, CHARLIE), Some(75));
}

#[test]
fn finalize_epoch_too_early_fails() {
    let mut env = new_test_ext();
    assert_eq!(env.record(ALICE), Ok(()));
    assert_eq!(env.finalize(), Err(RewardsError::EpochNotFinished));
    env.now = START + BLOCKS_PER_EPOCH as u64 - 1;
    assert_eq!(env.finalize(), Err(RewardsError::EpochNotFinished));
    assert_eq!(env.rewards.get_epoch_reward_pool(0), None);
}

#[test]
fn finalize_epoch_works() {
    let mut env = new_test_ext();
    assert_eq!(env.record(ALICE), Ok(()));
    assert_eq!(env.record(BOB), Ok(()));
    env.advance_to_epoch_end();
    assert_eq!(env.finalize(), Ok(()));
    let pool = env.rewards.get_epoch_reward_pool(0).expect("pool of epoch 0");
    assert_eq!(pool.total_trust_score, 150);
    assert_eq!(pool.participants_count, 2);
    assert_eq!(pool.claim_deadline, env.now + CLAIM_PERIOD_BLOCKS as u64);
    let epoch_info = env.rewards.get_current_epoch_info();
    assert_eq!(epoch_info.current_epoch, 1);
    assert_eq!(epoch_info.total_epochs_completed, 1);
    assert_eq!(epoch_info.epoch_start_block, env.now);
    assert_eq!(env.rewards.epoch_status(0), EpochState::ClaimPeriod);
    assert_eq!(env.rewards.epoch_status(1), EpochState::Open);
}

#[test]
fn parliamentary_nft_rewards_distributed_automatically() {
    let mut env = new_test_ext();
    assert_eq!(env.record(ALICE), Ok(()));
    assert_eq!(env.record(BOB), Ok(()));
    let initial_pot_balance = env.pot_balance();
    env.advance_to_epoch_end();
    assert_eq!(env.finalize(), Ok(()));
    let pool = env.rewards.get_epoch_reward_pool(0).unwrap();
    assert_eq!(pool.total_trust_score, 150);
    assert_eq!(pool.participants_count, 2);
    let expected_trust_pool = initial_pot_balance * 90u128 / 100u128;
    assert_eq!(pool.total_reward_pool, expected_trust_pool);
    let epoch_info = env.rewards.get_current_epoch_info();
    assert_eq!(epoch_info.current_epoch, 1);
    assert_eq!(epoch_info.total_epochs_completed, 1);
}

#[test]
fn parliamentary_rewards_are_10_percent_of_pool() {
    let mut env = new_test_ext();
    assert_eq!(env.record(ALICE), Ok(()));
    let initial_pot_balance = env.pot_balance();
    env.advance_to_epoch_end();
    assert_eq!(env.finalize(), Ok(()));
    let reward_pool = env.rewards.get_epoch_reward_pool(0).unwrap();
    let expected_trust_pool = initial_pot_balance * 90u128 / 100u128;
    assert_eq!(reward_pool.total_reward_pool, expected_trust_pool);
}

#[test]
fn registered_parliament_members_are_paid_on_finalize() {
    let mut env = new_test_ext();
    assert_eq!(env.rewards.register_parliamentary_nft_owner(Origin::Root, 1, 50), Ok(()));
    assert_eq!(env.rewards.register_parliamentary_nft_owner(Origin::Root, 2, 50), Ok(()));
    assert_eq!(env.rewards.register_parliamentary_nft_owner(Origin::Root, 7, 60), Ok(()));
    assert_eq!(env.rewards.get_parliamentary_nft_owner(7), Some(60));
    assert_eq!(env.record(ALICE), Ok(()));
    env.advance_to_epoch_end();
    assert_eq!(env.finalize(), Ok(()));
    let per_nft = POT_FUNDS * 10 / 100 / 201;
    assert_eq!(per_nft, 497_512_437_810);
    assert_eq!(env.assets.free_balance(50), 2 * per_nft);
    assert_eq!(env.assets.free_balance(60), per_nft);
    assert_eq!(env.pot_balance(), POT_FUNDS - 3 * per_nft);
    let paid = env
        .rewards
        .events
        .iter()
        .filter(|e| matches!(e, RewardsEvent::ParliamentaryNftRewardDistributed { .. }))
        .count();
    assert_eq!(paid, 3);
    // The trust pool is fixed from the pot before the parliamentary payments.
    assert_eq!(env.rewards.get_epoch_reward_pool(0).unwrap().total_reward_pool, POT_FUNDS * 90 / 100);
}

#[test]
fn claim_reward_works() {
    let mut env = new_test_ext();
    assert_eq!(env.record(ALICE), Ok(()));
    assert_eq!(env.record(BOB), Ok(()));
    env.advance_to_epoch_end();
    assert_eq!(env.finalize(), Ok(()));
    let balance_before = env.assets.free_balance(ALICE);
    assert_eq!(env.claim(ALICE, 0), Ok(()));
    let balance_after = env.assets.free_balance(ALICE);
    assert!(balance_after > balance_before);
    // 90% of the pot over 150 points, times 100 points.
    assert_eq!(balance_after - balance_before, 600_000_000_000_000);
    assert_eq!(env.rewards.get_claimed_reward(0, ALICE), Some(600_000_000_000_000));
}

#[test]
fn cannot_claim_twice() {
    let mut env = new_test_ext();
    assert_eq!(env.record(ALICE), Ok(()));
    env.advance_to_epoch_end();
    assert_eq!(env.finalize(), Ok(()));
    assert_eq!(env.claim(ALICE, 0), Ok(()));
    let balance = env.assets.free_balance(ALICE);
    assert_eq!(env.claim(ALICE, 0), Err(RewardsError::RewardAlreadyClaimed));
    assert_eq!(env.assets.free_balance(ALICE), balance);
}

#[test]
fn cannot_claim_without_trust_score() {
    let mut env = new_test_ext();
    assert_eq!(env.record(ALICE), Ok(()));
    env.advance_to_epoch_end();
    assert_eq!(env.finalize(), Ok(()));
    assert_eq!(env.claim(BOB, 0), Err(RewardsError::NoTrustScoreForEpoch));
}

#[test]
fn claim_period_expiry_works() {
    let mut env = new_test_ext();
    assert_eq!(env.record(ALICE), Ok(()));
    env.advance_to_epoch_end();
    assert_eq!(env.finalize(), Ok(()));
    env.advance_to_claim_period_end();
    env.now += 1;
    assert_eq!(env.claim(ALICE, 0), Err(RewardsError::ClaimPeriodExpired));
}

#[test]
fn close_epoch_works() {
    let mut env = new_test_ext();
    assert_eq!(env.record(ALICE), Ok(()));
    env.advance_to_epoch_end();
    assert_eq!(env.finalize(), Ok(()));
    let balance_before = env.assets.free_balance(CLAWBACK);
    env.advance_to_claim_period_end();
    env.now += 1;
    assert_eq!(env.rewards.close_epoch(Origin::Root, &mut env.assets, 0, env.now), Ok(()));
    let balance_after = env.assets.free_balance(CLAWBACK);
    assert!(balance_after > balance_before);
    assert_eq!(balance_after - balance_before, POT_FUNDS);
    assert_eq!(env.pot_balance(), 0);
    assert_eq!(env.rewards.epoch_status(0), EpochState::Closed);
    assert_eq!(
        env.rewards.close_epoch(Origin::Root, &mut env.assets, 0, env.now),
        Err(RewardsError::EpochAlreadyClosed)
    );
}

#[test]
fn cannot_close_epoch_too_early() {
    let mut env = new_test_ext();
    assert_eq!(env.record(ALICE), Ok(()));
    env.advance_to_epoch_end();
    assert_eq!(env.finalize(), Ok(()));
    assert_eq!(
        env.rewards.close_epoch(Origin::Root, &mut env.assets, 0, env.now),
        Err(RewardsError::ClaimPeriodExpired)
    );
}

#[test]
fn rewards_events_are_emitted() {
    let mut env = new_test_ext();
    assert_eq!(env.record(ALICE), Ok(()));
    assert!(env.rewards.events.iter().any(|e| matches!(e, RewardsEvent::TrustScoreRecorded { .. })));
    env.advance_to_epoch_end();
    assert_eq!(env.finalize(), Ok(()));
    assert!(env.rewards.events.iter().any(|e| matches!(e, RewardsEvent::EpochRewardPoolCalculated { .. })));
    assert!(env.rewards.events.iter().any(|e| matches!(e, RewardsEvent::NewEpochStarted { epoch_index: 1, .. })));
}

#[test]
fn reward_calculation_is_proportional() {
    let mut env = new_test_ext();
    assert_eq!(env.record(ALICE), Ok(()));
    assert_eq!(env.record(BOB), Ok(()));
    env.advance_to_epoch_end();
    assert_eq!(env.finalize(), Ok(()));
    let balance1_before = env.assets.free_balance(ALICE);
    let balance2_before = env.assets.free_balance(BOB);
    assert_eq!(env.claim(ALICE, 0), Ok(()));
    assert_eq!(env.claim(BOB, 0), Ok(()));
    let reward1 = env.assets.free_balance(ALICE) - balance1_before;
    let reward2 = env.assets.free_balance(BOB) - balance2_before;
    assert!(reward1 > reward2, "User with higher trust score should get more rewards");
    assert_eq!(reward1, 2 * reward2);
}

#[test]
fn nft_holders_get_rewards_even_without_trust_scores() {
    let mut env = new_test_ext();
    let initial_pot_balance = env.pot_balance();
    env.advance_to_epoch_end();
    assert_eq!(env.finalize(), Ok(()));
    let reward_pool = env.rewards.get_epoch_reward_pool(0).unwrap();
    assert_eq!(reward_pool.total_trust_score, 0);
    assert_eq!(reward_pool.participants_count, 0);
    assert_eq!(reward_pool.reward_per_trust_point, 0);
    let expected_trust_pool = initial_pot_balance * 90u128 / 100u128;
    assert_eq!(reward_pool.total_reward_pool, expected_trust_pool);
}

#[test]
fn parliamentary_rewards_per_nft_calculation() {
    let mut env = new_test_ext();
    let initial_pot_balance = env.pot_balance();
    let parliamentary_allocation = initial_pot_balance * 10u128 / 100u128;
    let _expected_per_nft = parliamentary_allocation / 201u128;
    assert_eq!(env.record(BOB), Ok(()));
    env.advance_to_epoch_end();
    assert_eq!(env.finalize(), Ok(()));
    let reward_pool = env.rewards.get_epoch_reward_pool(0).unwrap();
    let expected_trust_pool = initial_pot_balance * 90u128 / 100u128;
    assert_eq!(reward_pool.total_reward_pool, expected_trust_pool);
}

#[test]
fn only_root_can_call_admin_functions() {
    let mut env = new_test_ext();
    assert_eq!(env.rewards.initialize_rewards_system(Origin::Signed(1), 1), Err(RewardsError::BadOrigin));
    env.advance_to_epoch_end();
    assert_eq!(
        env.rewards.finalize_epoch(Origin::Signed(1), &mut env.assets, env.now),
        Err(RewardsError::BadOrigin)
    );
    assert_eq!(
        env.rewards.close_epoch(Origin::Signed(1), &mut env.assets, 0, env.now),
        Err(RewardsError::BadOrigin)
    );
    assert_eq!(
        env.rewards.register_parliamentary_nft_owner(Origin::Signed(1), 1, 5),
        Err(RewardsError::BadOrigin)
    );
    assert_eq!(env.rewards.record_trust_score(&env.trust, Origin::Root), Err(RewardsError::BadOrigin));
}

#[test]
fn empty_parliamentary_collection_handles_gracefully() {
    let mut env = new_test_ext();
    assert_eq!(env.record(BOB), Ok(()));
    let initial_pot_balance = env.pot_balance();
    env.advance_to_epoch_end();
    assert_eq!(env.finalize(), Ok(()));
    let reward_pool = env.rewards.get_epoch_reward_pool(0).unwrap();
    assert_eq!(reward_pool.total_trust_score, 50);
    assert_eq!(reward_pool.participants_count, 1);
    let expected_trust_pool = initial_pot_balance * 90u128 / 100u128;
    assert_eq!(reward_pool.total_reward_pool, expected_trust_pool);
}

#[test]
fn finalize_with_empty_pot_fails() {
    let mut rewards = PezRewards::new(RewardsConfig { incentive_pot_id: *b"pez/rpot", clawback_recipient: CLAWBACK });
    let mut assets = Ledger::new(1);
    assert_eq!(rewards.initialize_rewards_system(Origin::Root, 1), Ok(()));
    let now = 1 + BLOCKS_PER_EPOCH as u64;
    assert_eq!(
        rewards.finalize_epoch(Origin::Root, &mut assets, now),
        Err(RewardsError::InsufficientIncentivePot)
    );
}

#[test]
fn recording_after_finalize_goes_to_the_next_epoch() {
    let mut env = new_test_ext();
    env.advance_to_epoch_end();
    assert_eq!(env.finalize(), Ok(()));
    assert_eq!(env.record(CHARLIE), Ok(()));
    assert_eq!(env.rewards.get_user_trust_score_for_epoch(1, CHARLIE), Some(75));
    assert_eq!(env.rewards.get_user_trust_score_for_epoch(0, CHARLIE), None);
}

#[test]
fn genesis_config_opens_epoch_zero() {
    let mut rewards = PezRewards::new(RewardsConfig { incentive_pot_id: *b"pez/rpot", clawback_recipient: CLAWBACK });
    GenesisConfig::default().build(&mut rewards, 7);
    assert_eq!(rewards.epoch_info, None);
    GenesisConfig { start_rewards_system: true }.build(&mut rewards, 7);
    assert_eq!(rewards.get_current_epoch_info().epoch_start_block, 7);
    assert_eq!(rewards.epoch_status(0), EpochState::Open);
}

#[test]
fn parliamentary_payments_beyond_the_pot_pay_nothing() {
    let mut env = new_test_ext();
    assert_eq!(env.rewards.register_parliamentary_nft_owner(Origin::Root, 3, 50), Ok(()));
    assert_eq!(env.rewards.register_parliamentary_nft_owner(Origin::Root, 9, 60), Ok(()));
    let events_before = env.rewards.events.len();
    // A pool of 20 000 times the pot gives each NFT more than the pot holds.
    let too_much = POT_FUNDS * 20_000;
    assert_eq!(
        env.rewards.distribute_parliamentary_rewards(&mut env.assets, 0, too_much),
        Err(RewardsError::Asset(pezkuwi_pallets::ledger::LedgerError::InsufficientBalance))
    );
    assert_eq!(env.pot_balance(), POT_FUNDS);
    assert_eq!(env.assets.free_balance(50), 0);
    assert_eq!(env.rewards.events.len(), events_before);
    // Within the pot, both owners are paid.
    assert_eq!(env.rewards.distribute_parliamentary_rewards(&mut env.assets, 0, 201_000), Ok(()));
    assert_eq!(env.assets.free_balance(50), 100);
    assert_eq!(env.assets.free_balance(60), 100);
    assert_eq!(env.pot_balance(), POT_FUNDS - 200);
}

#[test]
fn all_claims_together_fit_the_trust_pool() {
    let mut env = new_test_ext();
    assert_eq!(env.record(ALICE), Ok(()));
    assert_eq!(env.record(BOB), Ok(()));
    assert_eq!(env.record(CHARLIE), Ok(()));
    env.advance_to_epoch_end();
    assert_eq!(env.finalize(), Ok(()));
    let pool = env.rewards.get_epoch_reward_pool(0).unwrap();
    let mut paid = 0u128;
    for who in [ALICE, BOB, CHARLIE] {
        let before = env.assets.free_balance(who);
        assert_eq!(env.claim(who, 0), Ok(()));
        paid += env.assets.free_balance(who) - before;
    }
    assert_eq!(pool.total_trust_score, 225);
    assert_eq!(pool.reward_per_trust_point, 900_000_000_000_000 / 225);
    assert!(paid <= pool.total_reward_pool);
    assert_eq!(env.pot_balance(), POT_FUNDS - paid);
}

#[test]
fn zero_trust_score_users_not_recorded() {
    let mut env = new_test_ext();
    let events = env.rewards.events.len();
    // Account 4 has a trust score of zero.
    assert_eq!(env.record(4), Ok(()));
    assert_eq!(env.rewards.get_user_trust_score_for_epoch(0, 4), None);
    assert_eq!(env.rewards.events.len(), events);
}

#[test]
fn claim_reward_from_nonexistent_epoch_fails() {
    let mut env = new_test_ext();
    assert_eq!(env.claim(ALICE, 999), Err(RewardsError::RewardPoolNotCalculated));
}

#[test]
fn claim_reward_before_epoch_finalized_fails() {
    let mut env = new_test_ext();
    assert_eq!(env.record(ALICE), Ok(()));
    assert_eq!(env.claim(ALICE, 0), Err(RewardsError::RewardPoolNotCalculated));
}

#[test]
fn claim_after_close_is_expired() {
    let mut env = new_test_ext();
    assert_eq!(env.record(ALICE), Ok(()));
    env.advance_to_epoch_end();
    assert_eq!(env.finalize(), Ok(()));
    env.advance_to_claim_period_end();
    env.now += 1;
    assert_eq!(env.rewards.close_epoch(Origin::Root, &mut env.assets, 0, env.now), Ok(()));
    assert_eq!(env.claim(ALICE, 0), Err(RewardsError::ClaimPeriodExpired));
}
