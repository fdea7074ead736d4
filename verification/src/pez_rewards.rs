//! PEZ rewards: each epoch (a month) citizens record their trust scores; when the epoch is
//! finalized, 10% of the incentive pot goes to the holders of the parliamentary NFTs and
//! 90% is shared among the recorded scores, claimable for a week; afterwards what is left
//! in the pot is clawed back.
use vstd::prelude::*;
use crate::primitives::{AccountId, Balance, BlockNumber, Origin, signer_of, ensure_signed, pallet_account_id, spec_pallet_account, saturate_u128};
use crate::ledger::{Ledger, LedgerError, transfer_outcome};
use crate::storage::{KeyMap, value_sum};
use crate::trust::TrustScoreProvider;

verus! {

/// Blocks in an epoch (a month of ten blocks a minute).
pub const BLOCKS_PER_EPOCH: u32 = 432_000;

/// Blocks of the claim period (a week).
pub const CLAIM_PERIOD_BLOCKS: u32 = 100_800;

/// The NFT collection of the parliamentary seats.
pub const PARLIAMENTARY_COLLECTION_ID: u32 = 100;

/// The number of parliamentary NFTs (ids 1 to 201).
pub const PARLIAMENTARY_NFT_COUNT: u32 = 201;

/// The parliament's share of the incentive pool, in percent.
pub const PARLIAMENTARY_REWARD_PERCENT: u32 = 10;

/// The current epoch.
#[derive(Clone, Copy, Debug, PartialEq, Eq, Structural)]
pub struct EpochData {
    pub current_epoch: u32,
    pub epoch_start_block: BlockNumber,
    pub total_epochs_completed: u32,
}

impl Default for EpochData {
    fn default() -> (r: Self)
        ensures
            r == (EpochData { current_epoch: 0, epoch_start_block: 0, total_epochs_completed: 0 }),
    {
        EpochData { current_epoch: 0, epoch_start_block: 0, total_epochs_completed: 0 }
    }
}

/// The reward pool of a finalized epoch.
#[derive(Clone, Copy, Debug, PartialEq, Eq, Structural)]
pub struct EpochRewardPool {
    pub epoch_index: u32,
    /// The part of the pot shared among trust scores (90%).
    pub total_reward_pool: Balance,
    pub total_trust_score: u128,
    pub reward_per_trust_point: Balance,
    pub participants_count: u32,
    pub claim_deadline: BlockNumber,
}

/// The state of an epoch (`Open` when never set).
#[derive(Clone, Copy, Debug, PartialEq, Eq, Structural)]
pub enum EpochState {
    /// Trust scores are being recorded.
    Open,
    /// Rewards can be claimed.
    ClaimPeriod,
    /// Unclaimed rewards were clawed back.
    Closed,
}

impl Default for EpochState {
    fn default() -> (r: Self)
        ensures
            r == EpochState::Open,
    {
        EpochState::Open
    }
}

/// Events of the pallet.
#[derive(Clone, Copy, Debug, PartialEq, Eq, Structural)]
pub enum RewardsEvent {
    NewEpochStarted { epoch_index: u32, start_block: BlockNumber },
    EpochRewardPoolCalculated {
        epoch_index: u32,
        total_pool: Balance,
        total_trust_score: u128,
        participants_count: u32,
        claim_deadline: BlockNumber,
    },
    RewardClaimed { user: AccountId, epoch_index: u32, amount: Balance },
    EpochClosed { epoch_index: u32, unclaimed_amount: Balance, clawback_recipient: AccountId },
    TrustScoreRecorded { user: AccountId, epoch_index: u32, trust_score: u128 },
    ParliamentaryNftRewardDistributed { nft_id: u32, owner: AccountId, amount: Balance, epoch: u32 },
    ParliamentaryOwnerRegistered { nft_id: u32, owner: AccountId },
}

/// Errors of the pallet.
#[derive(Clone, Copy, Debug, PartialEq, Eq, Structural)]
pub enum RewardsError {
    /// The origin may not make this call.
    BadOrigin,
    RewardsNotInitialized,
    EpochNotFinished,
    RewardAlreadyClaimed,
    RewardPoolNotCalculated,
    NoTrustScoreForEpoch,
    ClaimPeriodExpired,
    EpochAlreadyClosed,
    InsufficientIncentivePot,
    InvalidEpochIndex,
    CalculationOverflow,
    AlreadyInitialized,
    NoRewardToClaim,
    /// A transfer of the asset was refused.
    Asset(LedgerError),
}

/// The pallet's constants.
#[derive(Clone, Copy, Debug)]
pub struct RewardsConfig {
    /// The pallet id of the incentive pot.
    pub incentive_pot_id: [u8; 8],
    /// The account that receives the unclaimed rewards.
    pub clawback_recipient: AccountId,
}

/// The account of the incentive pot.
pub open spec fn pot_of(c: RewardsConfig) -> AccountId {
    spec_pallet_account(c.incentive_pot_id@)
}

/// The storage of the rewards pallet.
pub struct PezRewards {
    pub config: RewardsConfig,
    /// `EpochInfo` (absent until the system is initialized).
    pub epoch_info: Option<EpochData>,
    /// `EpochRewardPools`.
    pub reward_pools: KeyMap<EpochRewardPool>,
    /// `UserEpochScores`: per epoch, the recorded trust score of each account.
    pub user_scores: KeyMap<KeyMap<u128>>,
    /// `ClaimedRewards`: per epoch, the reward each account claimed.
    pub claimed: KeyMap<KeyMap<u128>>,
    /// `EpochStatus`.
    pub epoch_status: KeyMap<EpochState>,
    /// `ParliamentaryNftOwners`: the owner of each parliamentary NFT.
    pub nft_owners: KeyMap<AccountId>,
    /// Events deposited so far.
    pub events: Vec<RewardsEvent>,
}

/// The share of a pot for each parliamentary NFT: 10% of it, split in 201 parts.
pub open spec fn per_nft_reward(pool: Balance) -> Balance {
    ((pool * PARLIAMENTARY_REWARD_PERCENT / 100) / (PARLIAMENTARY_NFT_COUNT as int)) as Balance
}

/// The part of a pot shared among trust scores: 90% of it.
pub open spec fn trust_score_pool(pool: Balance) -> Balance {
    (pool * 90 / 100) as Balance
}

/// The number of parliamentary NFTs among ids `1 ..= n` owned by `a`.
pub open spec fn nfts_owned(owners: Map<u64, AccountId>, a: AccountId, n: nat) -> nat
    decreases n,
{
    if n == 0 {
        0
    } else {
        nfts_owned(owners, a, (n - 1) as nat) + if owners.contains_key(n as u64) && owners[n as u64] == a {
            1nat
        } else {
            0nat
        }
    }
}

/// The number of registered parliamentary NFTs among ids `1 ..= n` not owned by `pot`.
pub open spec fn nfts_paid(owners: Map<u64, AccountId>, pot: AccountId, n: nat) -> nat
    decreases n,
{
    if n == 0 {
        0
    } else {
        nfts_paid(owners, pot, (n - 1) as nat) + if owners.contains_key(n as u64) && owners[n as u64] != pot {
            1nat
        } else {
            0nat
        }
    }
}

/// Whether paying `per` to the owners of NFTs `1 ..= n` from the pot fails: some owner other
/// than the pot holds nothing and `per` is positive but below the existential deposit.
pub open spec fn parliament_fails(l: Ledger, owners: Map<u64, AccountId>, pot: AccountId, per: Balance, n: nat) -> bool {
    exists|k: int|
        #![trigger owners[k as u64]]
        1 <= k <= n && owners.contains_key(k as u64) && owners[k as u64] != pot && l.total(owners[k as u64]) == 0
            && 0 < per < l.min_balance()
}

/// What paying `per` from `pot` to the owners of the registered NFTs among `1 ..= n`, in
/// order and without keeping the pot alive, answers: the error of the first refused
/// transfer. Before the payment for NFT `n` the pot has paid `per` for each earlier NFT not
/// its own, and the owner has received `per` for each earlier NFT it owns.
pub open spec fn parliament_outcome(l: Ledger, owners: Map<u64, AccountId>, pot: AccountId, per: Balance, n: nat) -> Result<(), LedgerError>
    decreases n,
{
    if n == 0 {
        Ok(())
    } else {
        match parliament_outcome(l, owners, pot, per, (n - 1) as nat) {
            Err(e) => Err(e),
            Ok(()) => if owners.contains_key(n as u64) && owners[n as u64] != pot && per > 0 {
                let o = owners[n as u64];
                if l.free(pot) - per * nfts_paid(owners, pot, (n - 1) as nat) < per {
                    Err(LedgerError::InsufficientBalance)
                } else if l.total(o) + per * nfts_owned(owners, o, (n - 1) as nat) == 0 && per < l.min_balance() {
                    Err(LedgerError::BelowMinimum)
                } else {
                    Ok(())
                }
            } else {
                Ok(())
            },
        }
    }
}

proof fn lemma_outcome_err_stays(l: Ledger, owners: Map<u64, AccountId>, pot: AccountId, per: Balance, k: nat, n: nat)
    requires
        k <= n,
        parliament_outcome(l, owners, pot, per, k) is Err,
    ensures
        parliament_outcome(l, owners, pot, per, n) == parliament_outcome(l, owners, pot, per, k),
    decreases n - k,
{
    if k < n {
        lemma_outcome_err_stays(l, owners, pot, per, k, (n - 1) as nat);
    }
}

/// When the pot holds at least the payments for all 201 NFTs, the payments fail only on an
/// owner that holds nothing, paid less than the existential deposit.
proof fn lemma_outcome_when_funded(l: Ledger, owners: Map<u64, AccountId>, pot: AccountId, per: Balance, n: nat)
    requires
        n <= PARLIAMENTARY_NFT_COUNT,
        per * PARLIAMENTARY_NFT_COUNT <= l.free(pot),
        l.wf(),
    ensures
        parliament_outcome(l, owners, pot, per, n) is Err <==> parliament_fails(l, owners, pot, per, n),
        parliament_outcome(l, owners, pot, per, n) is Err ==> parliament_outcome(l, owners, pot, per, n)
            == Err::<(), LedgerError>(LedgerError::BelowMinimum),
    decreases n,
{
    if n > 0 {
        let m = (n - 1) as nat;
        lemma_outcome_when_funded(l, owners, pot, per, m);
        if parliament_outcome(l, owners, pot, per, m) is Err {
            let j = choose|j: int|
                #![trigger owners[j as u64]]
                1 <= j <= m && owners.contains_key(j as u64) && owners[j as u64] != pot && l.total(owners[j as u64]) == 0
                    && 0 < per < l.min_balance();
            assert(1 <= j <= n);
        } else if owners.contains_key(n as u64) && owners[n as u64] != pot && per > 0 {
            let o = owners[n as u64];
            lemma_nfts_paid_bounded(owners, pot, m);
            assert(per * nfts_paid(owners, pot, m) + per <= per * PARLIAMENTARY_NFT_COUNT) by (nonlinear_arith)
                requires
                    nfts_paid(owners, pot, m) <= m,
                    m + 1 <= PARLIAMENTARY_NFT_COUNT,
                    per >= 0,
            ;
            assert(l.total(o) >= 0);
            assert(per * nfts_owned(owners, o, m) >= 0) by (nonlinear_arith)
                requires
                    per >= 0,
            ;
            if l.total(o) == 0 && per < l.min_balance() {
                if nfts_owned(owners, o, m) > 0 {
                    lemma_owned_means_registered(owners, o, m);
                    let j = choose|j: int| #![trigger owners[j as u64]] 1 <= j <= m && owners.contains_key(j as u64) && owners[j as u64] == o;
                    assert(parliament_fails(l, owners, pot, per, m));
                }
                assert(nfts_owned(owners, o, m) == 0);
                assert(per * nfts_owned(owners, o, m) == 0) by (nonlinear_arith)
                    requires
                        nfts_owned(owners, o, m) == 0,
                ;
                let kn = n as int;
                assert(owners[kn as u64] == o);
                assert(parliament_fails(l, owners, pot, per, n));
            } else {
                assert(!parliament_fails(l, owners, pot, per, n)) by {
                    if parliament_fails(l, owners, pot, per, n) {
                        let j = choose|j: int|
                            #![trigger owners[j as u64]]
                            1 <= j <= n && owners.contains_key(j as u64) && owners[j as u64] != pot && l.total(owners[j as u64]) == 0
                                && 0 < per < l.min_balance();
                        if j < n {
                            assert(parliament_fails(l, owners, pot, per, m));
                        } else {
                            assert(j as u64 == n as u64);
                        }
                    }
                }
            }
        } else {
            assert(!parliament_fails(l, owners, pot, per, n)) by {
                if parliament_fails(l, owners, pot, per, n) {
                    let j = choose|j: int|
                        #![trigger owners[j as u64]]
                        1 <= j <= n && owners.contains_key(j as u64) && owners[j as u64] != pot && l.total(owners[j as u64]) == 0
                            && 0 < per < l.min_balance();
                    if j < n {
                        assert(parliament_fails(l, owners, pot, per, m));
                    } else {
                        assert(j as u64 == n as u64);
                    }
                }
            }
        }
    }
}

/// The events of the payments to the owners of NFTs `1 ..= n`.
pub open spec fn parliament_events(owners: Map<u64, AccountId>, per: Balance, epoch: u32, n: nat) -> Seq<RewardsEvent>
    decreases n,
{
    if n == 0 {
        Seq::empty()
    } else {
        let prev = parliament_events(owners, per, epoch, (n - 1) as nat);
        if owners.contains_key(n as u64) {
            prev.push(
                RewardsEvent::ParliamentaryNftRewardDistributed {
                    nft_id: n as u32,
                    owner: owners[n as u64],
                    amount: per,
                    epoch,
                },
            )
        } else {
            prev
        }
    }
}

proof fn lemma_nfts_paid_bounded(owners: Map<u64, AccountId>, pot: AccountId, n: nat)
    ensures
        nfts_paid(owners, pot, n) <= n,
    decreases n,
{
    if n > 0 {
        lemma_nfts_paid_bounded(owners, pot, (n - 1) as nat);
    }
}

proof fn lemma_owned_means_registered(owners: Map<u64, AccountId>, a: AccountId, n: nat)
    requires
        nfts_owned(owners, a, n) > 0,
    ensures
        exists|k: int| #![trigger owners[k as u64]] 1 <= k <= n && owners.contains_key(k as u64) && owners[k as u64] == a,
    decreases n,
{
    if n > 0 {
        if nfts_owned(owners, a, (n - 1) as nat) > 0 {
            lemma_owned_means_registered(owners, a, (n - 1) as nat);
            let k = choose|k: int| #![trigger owners[k as u64]] 1 <= k <= n - 1 && owners.contains_key(k as u64) && owners[k as u64] == a;
            assert(1 <= k <= n && owners.contains_key(k as u64) && owners[k as u64] == a);
        } else {
            assert(owners.contains_key(n as u64) && owners[n as u64] == a);
            let k = n as int;
            assert(k as u64 == n as u64);
        }
    }
}

impl PezRewards {
    /// A pallet with empty storage.
    pub fn new(config: RewardsConfig) -> (s: Self)
        ensures
            s.config == config,
            s.epoch_info is None,
            s.reward_pools@ == Map::<u64, EpochRewardPool>::empty(),
            s.user_scores@ == Map::<u64, KeyMap<u128>>::empty(),
            s.claimed@ == Map::<u64, KeyMap<u128>>::empty(),
            s.epoch_status@ == Map::<u64, EpochState>::empty(),
            s.nft_owners@ == Map::<u64, AccountId>::empty(),
            s.events@ == Seq::<RewardsEvent>::empty(),
    {
        PezRewards {
            config,
            epoch_info: None,
            reward_pools: KeyMap::new(),
            user_scores: KeyMap::new(),
            claimed: KeyMap::new(),
            epoch_status: KeyMap::new(),
            nft_owners: KeyMap::new(),
            events: Vec::new(),
        }
    }

    /// `incentive_pot_account_id`: the account of the incentive pot.
    pub fn incentive_pot_account_id(&self) -> (r: AccountId)
        ensures
            r == pot_of(self.config),
    {
        pallet_account_id(self.config.incentive_pot_id)
    }

    /// `distribute_parliamentary_rewards`: pays each registered owner of parliamentary NFTs
    /// `1 ..= 201`, in order, a 201st of 10% of `total_incentive_pool` from the incentive pot,
    /// depositing an event for each. If a payment fails, nothing is paid and its error is
    /// answered.
    pub fn distribute_parliamentary_rewards(
        &mut self,
        assets: &mut Ledger,
        epoch: u32,
        total_incentive_pool: Balance,
    ) -> (r: Result<(), RewardsError>)
        requires
            old(assets).wf(),
            total_incentive_pool * PARLIAMENTARY_REWARD_PERCENT <= Balance::MAX,
        ensures
            final(assets).wf(),
            ({
                let owners = old(self).nft_owners@;
                let pot = pot_of(old(self).config);
                let per = per_nft_reward(total_incentive_pool);
                &&& r == match parliament_outcome(*old(assets), owners, pot, per, PARLIAMENTARY_NFT_COUNT as nat) {
                    Ok(()) => Ok::<(), RewardsError>(()),
                    Err(e) => Err(RewardsError::Asset(e)),
                }
                &&& r is Err ==> *final(self) == *old(self) && final(assets).same_balances(&*old(assets))
                &&& r is Ok ==> {
                    &&& forall|a: AccountId| a != pot ==> #[trigger] final(assets).free(a) == old(assets).free(a)
                        + per * nfts_owned(owners, a, PARLIAMENTARY_NFT_COUNT as nat)
                    &&& final(assets).free(pot) == old(assets).free(pot) - per * nfts_paid(
                        owners,
                        pot,
                        PARLIAMENTARY_NFT_COUNT as nat,
                    )
                    &&& forall|a: AccountId| #[trigger] final(assets).reserved(a) == old(assets).reserved(a)
                    &&& final(assets).issuance() == old(assets).issuance()
                    &&& final(assets).min_balance() == old(assets).min_balance()
                    &&& final(self).events@ == old(self).events@ + parliament_events(
                        owners,
                        per,
                        epoch,
                        PARLIAMENTARY_NFT_COUNT as nat,
                    )
                    &&& final(self).config == old(self).config
                    &&& final(self).epoch_info == old(self).epoch_info
                    &&& final(self).reward_pools == old(self).reward_pools
                    &&& final(self).user_scores == old(self).user_scores
                    &&& final(self).claimed == old(self).claimed
                    &&& final(self).epoch_status == old(self).epoch_status
                    &&& final(self).nft_owners == old(self).nft_owners
                }
            }),
    {
        let parliamentary_allocation = total_incentive_pool * (PARLIAMENTARY_REWARD_PERCENT as u128) / 100;
        let per_nft = parliamentary_allocation / (PARLIAMENTARY_NFT_COUNT as u128);
        let pot = self.incentive_pot_account_id();
        let saved = assets.snapshot();
        let ghost l0 = *assets;
        let ghost owners = self.nft_owners@;
        let ghost old_self = *self;
        proof {
            assert(per_nft == per_nft_reward(total_incentive_pool));
            assert forall|a: AccountId| a != pot implies #[trigger] assets.free(a) == l0.free(a) + per_nft * nfts_owned(
                owners,
                a,
                0,
            ) by {
                assert(nfts_owned(owners, a, 0) == 0);
            }
            assert(Seq::<RewardsEvent>::empty() =~= parliament_events(owners, per_nft, epoch, 0));
        }
        let mut pending: Vec<RewardsEvent> = Vec::new();
        let mut k: u32 = 1;
        while k <= PARLIAMENTARY_NFT_COUNT
            invariant
                1 <= k <= PARLIAMENTARY_NFT_COUNT + 1,
                l0 == *old(assets),
                old_self == *old(self),
                assets.wf(),
                saved.wf(),
                saved.same_balances(&l0),
                l0.wf(),
                owners == self.nft_owners@,
                pot == pot_of(self.config),
                per_nft == per_nft_reward(total_incentive_pool),
                assets.min_balance() == l0.min_balance(),
                assets.issuance() == l0.issuance(),
                forall|a: AccountId| a != pot ==> #[trigger] assets.free(a) == l0.free(a) + per_nft * nfts_owned(
                    owners,
                    a,
                    (k - 1) as nat,
                ),
                assets.free(pot) == l0.free(pot) - per_nft * nfts_paid(owners, pot, (k - 1) as nat),
                forall|a: AccountId| #[trigger] assets.reserved(a) == l0.reserved(a),
                parliament_outcome(l0, owners, pot, per_nft, (k - 1) as nat) is Ok,
                pending@ == parliament_events(owners, per_nft, epoch, (k - 1) as nat),
                *self == old_self,
            decreases PARLIAMENTARY_NFT_COUNT + 1 - k,
        {
            let ghost before = *assets;
            let ghost kk = k as nat;
            proof {
                assert(kk as u64 == k as u64);
            }
            match self.nft_owners.get(k as u64) {
                Some(o) => {
                    let owner = *o;
                    proof {
                        if owner != pot {
                            assert(before.free(owner) == l0.free(owner) + per_nft * nfts_owned(owners, owner, (k - 1) as nat));
                            assert(before.reserved(owner) == l0.reserved(owner));
                        }
                    }
                    match assets.transfer(pot, owner, per_nft, false) {
                        Ok(()) => {},
                        Err(e) => {
                            *assets = saved.snapshot();
                            proof {
                                assert(parliament_outcome(l0, owners, pot, per_nft, kk) == Err::<(), LedgerError>(e));
                                lemma_outcome_err_stays(l0, owners, pot, per_nft, kk, PARLIAMENTARY_NFT_COUNT as nat);
                                assert(assets.same_balances(&l0)) by {
                                    assert forall|a: AccountId| #[trigger] assets.account(a) == l0.account(a) by {
                                        assert(assets.account(a) == saved.account(a));
                                        assert(saved.account(a) == l0.account(a));
                                    }
                                }
                            }
                            return Err(RewardsError::Asset(e));
                        },
                    }
                    pending.push(
                        RewardsEvent::ParliamentaryNftRewardDistributed { nft_id: k, owner, amount: per_nft, epoch },
                    );
                    proof {
                        assert(parliament_outcome(l0, owners, pot, per_nft, kk) is Ok);
                        assert forall|a: AccountId| a != pot implies #[trigger] assets.free(a) == l0.free(a) + per_nft * nfts_owned(
                            owners,
                            a,
                            kk,
                        ) by {
                            assert(before.free(a) == l0.free(a) + per_nft * nfts_owned(owners, a, (k - 1) as nat));
                            if a == owner {
                                assert(nfts_owned(owners, a, kk) == nfts_owned(owners, a, (k - 1) as nat) + 1);
                                assert(per_nft * nfts_owned(owners, a, kk) == per_nft * nfts_owned(owners, a, (k - 1) as nat) + per_nft) by (nonlinear_arith)
                                    requires
                                        nfts_owned(owners, a, kk) == nfts_owned(owners, a, (k - 1) as nat) + 1,
                                ;
                            } else {
                                assert(assets.account(a) == before.account(a));
                                assert(nfts_owned(owners, a, kk) == nfts_owned(owners, a, (k - 1) as nat));
                            }
                        }
                        if owner != pot {
                            assert(per_nft * nfts_paid(owners, pot, kk) == per_nft * nfts_paid(owners, pot, (k - 1) as nat) + per_nft) by (nonlinear_arith)
                                requires
                                    nfts_paid(owners, pot, kk) == nfts_paid(owners, pot, (k - 1) as nat) + 1,
                            ;
                        }
                        assert forall|a: AccountId| #[trigger] assets.reserved(a) == l0.reserved(a) by {
                            assert(assets.reserved(a) == before.reserved(a));
                        }
                        assert(pending@ =~= parliament_events(owners, per_nft, epoch, kk));
                    }
                },
                None => {
                    proof {
                        assert(!owners.contains_key(k as u64));
                        assert(parliament_outcome(l0, owners, pot, per_nft, kk) is Ok);
                        assert(pending@ =~= parliament_events(owners, per_nft, epoch, kk));
                        assert forall|a: AccountId| a != pot implies #[trigger] assets.free(a) == l0.free(a) + per_nft * nfts_owned(
                            owners,
                            a,
                            kk,
                        ) by {
                            assert(nfts_owned(owners, a, kk) == nfts_owned(owners, a, (k - 1) as nat));
                            assert(assets.free(a) == l0.free(a) + per_nft * nfts_owned(owners, a, (k - 1) as nat));
                        }
                    }
                },
            }
            k += 1;
        }
        self.events.append(&mut pending);
        Ok(())
    }
}

/// A sum of block numbers saturated at the largest `u64`.
pub open spec fn saturate_u64(x: int) -> BlockNumber {
    if x > BlockNumber::MAX {
        BlockNumber::MAX
    } else {
        x as BlockNumber
    }
}

/// The reward of each trust point: the trust pool divided by the total score (none when the
/// total is zero).
pub open spec fn reward_per_point(trust_pool: Balance, total: u128) -> Balance {
    if total > 0 {
        trust_pool / total
    } else {
        0
    }
}

impl PezRewards {
    /// The current epoch (zero, starting at block zero, before initialization).
    pub open spec fn epoch_data(&self) -> EpochData {
        match self.epoch_info {
            Some(d) => d,
            None => EpochData { current_epoch: 0, epoch_start_block: 0, total_epochs_completed: 0 },
        }
    }

    /// The state of epoch `e`.
    pub open spec fn status_of(&self, e: u32) -> EpochState {
        if self.epoch_status@.contains_key(e as u64) {
            self.epoch_status@[e as u64]
        } else {
            EpochState::Open
        }
    }

    /// The reward pool of epoch `e`, once calculated.
    pub open spec fn pool_of(&self, e: u32) -> Option<EpochRewardPool> {
        if self.reward_pools@.contains_key(e as u64) {
            Some(self.reward_pools@[e as u64])
        } else {
            None
        }
    }

    /// The trust score recorded for `who` in epoch `e`.
    pub open spec fn score_in(&self, e: u32, who: AccountId) -> Option<u128> {
        if self.user_scores@.contains_key(e as u64) && self.user_scores@[e as u64]@.contains_key(who) {
            Some(self.user_scores@[e as u64]@[who])
        } else {
            None
        }
    }

    /// The reward that `who` claimed for epoch `e`.
    pub open spec fn claimed_in(&self, e: u32, who: AccountId) -> Option<Balance> {
        if self.claimed@.contains_key(e as u64) && self.claimed@[e as u64]@.contains_key(who) {
            Some(self.claimed@[e as u64]@[who])
        } else {
            None
        }
    }

    /// The sum of the trust scores recorded in epoch `e`.
    pub open spec fn epoch_score_sum(&self, e: u32) -> int {
        if self.user_scores@.contains_key(e as u64) {
            value_sum(self.user_scores@[e as u64].key_seq(), self.user_scores@[e as u64]@)
        } else {
            0
        }
    }

    /// The number of accounts that recorded a trust score in epoch `e`.
    pub open spec fn epoch_participants(&self, e: u32) -> int {
        if self.user_scores@.contains_key(e as u64) {
            self.user_scores@[e as u64].key_seq().len() as int
        } else {
            0
        }
    }

    /// `do_initialize_rewards_system`: opens epoch zero at block `now`.
    pub fn do_initialize_rewards_system(&mut self, now: BlockNumber) -> (r: Result<(), RewardsError>)
        ensures
            old(self).epoch_info is Some ==> r == Err::<(), RewardsError>(RewardsError::AlreadyInitialized)
                && *final(self) == *old(self),
            old(self).epoch_info is None ==> {
                &&& r is Ok
                &&& final(self).epoch_info == Some(EpochData { current_epoch: 0, epoch_start_block: now, total_epochs_completed: 0 })
                &&& final(self).epoch_status@ == old(self).epoch_status@.insert(0, EpochState::Open)
                &&& final(self).events@ == old(self).events@.push(RewardsEvent::NewEpochStarted { epoch_index: 0, start_block: now })
                &&& final(self).reward_pools == old(self).reward_pools
                &&& final(self).user_scores == old(self).user_scores
                &&& final(self).claimed == old(self).claimed
                &&& final(self).nft_owners == old(self).nft_owners
                &&& final(self).config == old(self).config
            },
    {
        if self.epoch_info.is_some() {
            return Err(RewardsError::AlreadyInitialized);
        }
        self.epoch_info = Some(EpochData { current_epoch: 0, epoch_start_block: now, total_epochs_completed: 0 });
        self.epoch_status.insert(0, EpochState::Open);
        self.events.push(RewardsEvent::NewEpochStarted { epoch_index: 0, start_block: now });
        Ok(())
    }

    fn current_epoch_data(&self) -> (d: EpochData)
        ensures
            d == self.epoch_data(),
    {
        match self.epoch_info {
            Some(d) => d,
            None => EpochData { current_epoch: 0, epoch_start_block: 0, total_epochs_completed: 0 },
        }
    }

    /// `epoch_status`: the state of epoch `e`.
    pub fn epoch_status(&self, e: u32) -> (r: EpochState)
        ensures
            r == self.status_of(e),
    {
        match self.epoch_status.get(e as u64) {
            Some(st) => *st,
            None => EpochState::Open,
        }
    }

    /// `do_record_trust_score`: records, for the current epoch while it is open, the trust
    /// score that `trust` gives `who`; a score of zero is not recorded.
    pub fn do_record_trust_score<T: TrustScoreProvider>(&mut self, trust: &T, who: AccountId) -> (r: Result<(), RewardsError>)
        ensures
            ({
                let e = old(self).epoch_data().current_epoch;
                let v = trust.trust_score_value(who);
                &&& old(self).status_of(e) != EpochState::Open ==> r == Err::<(), RewardsError>(RewardsError::EpochAlreadyClosed)
                    && *final(self) == *old(self)
                &&& old(self).status_of(e) == EpochState::Open && v == 0 ==> r is Ok && *final(self) == *old(self)
                &&& old(self).status_of(e) == EpochState::Open && v > 0 ==> {
                    &&& r is Ok
                    &&& final(self).score_in(e, who) == Some(v)
                    &&& forall|e2: u32, a: AccountId| (e2 != e || a != who) ==> #[trigger] final(self).score_in(e2, a)
                        == old(self).score_in(e2, a)
                    &&& final(self).events@ == old(self).events@.push(
                        RewardsEvent::TrustScoreRecorded { user: who, epoch_index: e, trust_score: v },
                    )
                    &&& final(self).epoch_info == old(self).epoch_info
                    &&& final(self).epoch_status == old(self).epoch_status
                    &&& final(self).reward_pools == old(self).reward_pools
                    &&& final(self).claimed == old(self).claimed
                    &&& final(self).nft_owners == old(self).nft_owners
                    &&& final(self).config == old(self).config
                }
            }),
    {
        let e = self.current_epoch_data().current_epoch;
        if self.epoch_status(e) != EpochState::Open {
            return Err(RewardsError::EpochAlreadyClosed);
        }
        let v = trust.trust_score_of(who);
        if v == 0 {
            return Ok(());
        }
        let mut inner = match self.user_scores.remove(e as u64) {
            Some(m) => m,
            None => KeyMap::new(),
        };
        let ghost old_inner = inner@;
        inner.insert(who, v);
        self.user_scores.insert(e as u64, inner);
        self.events.push(RewardsEvent::TrustScoreRecorded { user: who, epoch_index: e, trust_score: v });
        proof {
            assert forall|e2: u32, a: AccountId| (e2 != e || a != who) implies #[trigger] self.score_in(e2, a)
                == old(self).score_in(e2, a) by {
                if e2 as u64 == e as u64 {
                    assert(e2 == e);
                }
            }
        }
        Ok(())
    }
}

/// Whether finalizing the current epoch at block `now` keeps within the balance arithmetic:
/// once the epoch is over and open, 10% of the pot can be taken, and when the parliamentary
/// payments go through, 90% of it can too.
pub open spec fn finalize_fits(s: PezRewards, assets: Ledger, now: BlockNumber) -> bool {
    let d = s.epoch_data();
    let pot = pot_of(s.config);
    let pool = assets.free(pot);
    now >= d.epoch_start_block + BLOCKS_PER_EPOCH && s.status_of(d.current_epoch) == EpochState::Open ==> {
        &&& pool * PARLIAMENTARY_REWARD_PERCENT <= Balance::MAX
        &&& parliament_outcome(assets, s.nft_owners@, pot, per_nft_reward(pool), PARLIAMENTARY_NFT_COUNT as nat) is Ok
            ==> pool * 90 <= Balance::MAX
    }
}

/// What finalizing the current epoch at block `now` answers, in the order of the checks.
pub open spec fn finalize_outcome(s: PezRewards, assets: Ledger, now: BlockNumber) -> Result<(), RewardsError> {
    let d = s.epoch_data();
    let pot = pot_of(s.config);
    let pool = assets.free(pot);
    if now < d.epoch_start_block + BLOCKS_PER_EPOCH {
        Err(RewardsError::EpochNotFinished)
    } else if s.status_of(d.current_epoch) != EpochState::Open {
        Err(RewardsError::EpochAlreadyClosed)
    } else if pool == 0 {
        Err(RewardsError::InsufficientIncentivePot)
    } else if parliament_fails(assets, s.nft_owners@, pot, per_nft_reward(pool), PARLIAMENTARY_NFT_COUNT as nat) {
        Err(RewardsError::Asset(LedgerError::BelowMinimum))
    } else {
        Ok(())
    }
}

impl PezRewards {
    /// `do_finalize_epoch`: once the current epoch has lasted its 432,000 blocks and is open,
    /// pays the parliamentary NFT owners from the incentive pot, fixes the epoch's reward pool
    /// (90% of the pot shared by the recorded trust scores, claimable for 100,800 blocks),
    /// moves the epoch to its claim period and opens the next one at block `now`.
    pub fn do_finalize_epoch(&mut self, assets: &mut Ledger, now: BlockNumber) -> (r: Result<(), RewardsError>)
        requires
            old(assets).wf(),
            finalize_fits(*old(self), *old(assets), now),
        ensures
            final(assets).wf(),
            r == finalize_outcome(*old(self), *old(assets), now),
            r is Err ==> *final(self) == *old(self) && final(assets).same_balances(&*old(assets)),
            r is Ok ==> {
                let d = old(self).epoch_data();
                let e = d.current_epoch;
                let pot = pot_of(old(self).config);
                let pool = old(assets).free(pot);
                let owners = old(self).nft_owners@;
                let per = per_nft_reward(pool);
                let trust_pool = trust_score_pool(pool);
                let total = saturate_u128(old(self).epoch_score_sum(e));
                let count: u32 = if old(self).epoch_participants(e) > u32::MAX {
                    u32::MAX
                } else {
                    old(self).epoch_participants(e) as u32
                };
                let deadline = saturate_u64(now + CLAIM_PERIOD_BLOCKS);
                let next: u32 = if e == u32::MAX { e } else { (e + 1) as u32 };
                &&& final(self).reward_pools@ == old(self).reward_pools@.insert(
                    e as u64,
                    EpochRewardPool {
                        epoch_index: e,
                        total_reward_pool: trust_pool,
                        total_trust_score: total,
                        reward_per_trust_point: reward_per_point(trust_pool, total),
                        participants_count: count,
                        claim_deadline: deadline,
                    },
                )
                &&& final(self).epoch_status@ == old(self).epoch_status@.insert(e as u64, EpochState::ClaimPeriod).insert(
                    next as u64,
                    EpochState::Open,
                )
                &&& final(self).epoch_info == Some(EpochData {
                    current_epoch: next,
                    epoch_start_block: now,
                    total_epochs_completed: if d.total_epochs_completed == u32::MAX {
                        u32::MAX
                    } else {
                        (d.total_epochs_completed + 1) as u32
                    },
                })
                &&& final(self).events@ == old(self).events@ + parliament_events(owners, per, e, PARLIAMENTARY_NFT_COUNT as nat)
                    + seq![
                    RewardsEvent::EpochRewardPoolCalculated {
                        epoch_index: e,
                        total_pool: trust_pool,
                        total_trust_score: total,
                        participants_count: count,
                        claim_deadline: deadline,
                    },
                    RewardsEvent::NewEpochStarted { epoch_index: next, start_block: now },
                ]
                &&& final(self).user_scores == old(self).user_scores
                &&& final(self).claimed == old(self).claimed
                &&& final(self).nft_owners == old(self).nft_owners
                &&& final(self).config == old(self).config
                &&& forall|a: AccountId| a != pot ==> #[trigger] final(assets).free(a) == old(assets).free(a)
                    + per * nfts_owned(owners, a, PARLIAMENTARY_NFT_COUNT as nat)
                &&& final(assets).free(pot) == pool - per * nfts_paid(owners, pot, PARLIAMENTARY_NFT_COUNT as nat)
                &&& forall|a: AccountId| #[trigger] final(assets).reserved(a) == old(assets).reserved(a)
                &&& final(assets).issuance() == old(assets).issuance()
                &&& final(assets).min_balance() == old(assets).min_balance()
            },
    {
        let d = self.current_epoch_data();
        let e = d.current_epoch;
        let duration: u64 = if now >= d.epoch_start_block {
            now - d.epoch_start_block
        } else {
            0
        };
        if duration < BLOCKS_PER_EPOCH as u64 {
            return Err(RewardsError::EpochNotFinished);
        }
        if self.epoch_status(e) != EpochState::Open {
            return Err(RewardsError::EpochAlreadyClosed);
        }
        let pot = self.incentive_pot_account_id();
        let pool = assets.free_balance(pot);
        if pool == 0 {
            return Err(RewardsError::InsufficientIncentivePot);
        }
        proof {
            assert(per_nft_reward(pool) * PARLIAMENTARY_NFT_COUNT <= pool) by (nonlinear_arith)
                requires
                    per_nft_reward(pool) == (pool * 10 / 100) / 201,
            ;
            lemma_outcome_when_funded(
                *assets,
                self.nft_owners@,
                pot,
                per_nft_reward(pool),
                PARLIAMENTARY_NFT_COUNT as nat,
            );
        }
        match self.distribute_parliamentary_rewards(assets, e, pool) {
            Ok(()) => {},
            Err(err) => return Err(err),
        }
        let trust_pool = pool * 90 / 100;
        let (total, count) = match self.user_scores.get(e as u64) {
            Some(inner) => inner.saturating_sum_and_count(),
            None => (0, 0),
        };
        let per_point = if total > 0 {
            trust_pool / total
        } else {
            0
        };
        let deadline = now.saturating_add(CLAIM_PERIOD_BLOCKS as u64);
        let pool_record = EpochRewardPool {
            epoch_index: e,
            total_reward_pool: trust_pool,
            total_trust_score: total,
            reward_per_trust_point: per_point,
            participants_count: count,
            claim_deadline: deadline,
        };
        self.reward_pools.insert(e as u64, pool_record);
        self.epoch_status.insert(e as u64, EpochState::ClaimPeriod);
        let next = e.saturating_add(1);
        let completed = d.total_epochs_completed.saturating_add(1);
        self.epoch_info = Some(EpochData { current_epoch: next, epoch_start_block: now, total_epochs_completed: completed });
        self.epoch_status.insert(next as u64, EpochState::Open);
        let ghost ev_before = self.events@;
        self.events.push(
            RewardsEvent::EpochRewardPoolCalculated {
                epoch_index: e,
                total_pool: trust_pool,
                total_trust_score: total,
                participants_count: count,
                claim_deadline: deadline,
            },
        );
        self.events.push(RewardsEvent::NewEpochStarted { epoch_index: next, start_block: now });
        proof {
            assert(self.events@ =~= ev_before + seq![
                RewardsEvent::EpochRewardPoolCalculated {
                    epoch_index: e,
                    total_pool: trust_pool,
                    total_trust_score: total,
                    participants_count: count,
                    claim_deadline: deadline,
                },
                RewardsEvent::NewEpochStarted { epoch_index: next, start_block: now },
            ]);
        }
        Ok(())
    }
}

/// The split of an epoch's reward pot: 90% of it (rounded down) goes to the trust scores, and
/// each of the 201 parliamentary NFTs gets a 201st of 10% of it (rounded down); an epoch
/// lasts 432 000 blocks and its claim period 100 800.
pub proof fn lemma_reward_split(pool: Balance)
    requires
        pool * 90 <= Balance::MAX,
    ensures
        trust_score_pool(pool) == pool * 90 / 100,
        per_nft_reward(pool) == pool * 10 / 100 / 201,
        PARLIAMENTARY_NFT_COUNT == 201,
        BLOCKS_PER_EPOCH == 432_000,
        CLAIM_PERIOD_BLOCKS == 100_800,
        trust_score_pool(1_000) == 900,
        per_nft_reward(201_000) == 100,
{
}

/// Every epoch's payments fit the pot they come from: the parliament's 201 shares and the
/// trust pool together take at most the pot, and the trust pool covers every recorded score
/// at the epoch's reward per point (when the total score did not saturate).
pub proof fn lemma_epoch_rewards_fit_pot(pool: Balance, total: u128)
    requires
        pool * 90 <= Balance::MAX,
    ensures
        per_nft_reward(pool) * PARLIAMENTARY_NFT_COUNT + trust_score_pool(pool) <= pool,
        reward_per_point(trust_score_pool(pool), total) * total <= trust_score_pool(pool),
{
    let per = per_nft_reward(pool);
    let tp = trust_score_pool(pool);
    assert(per * 201 <= pool * 10 / 100) by (nonlinear_arith)
        requires
            per == (pool * 10 / 100) / 201,
    ;
    assert(pool * 10 / 100 + pool * 90 / 100 <= pool) by (nonlinear_arith)
        requires
            pool >= 0,
    ;
    if total > 0 {
        assert((tp / total) * total <= tp) by (nonlinear_arith)
            requires
                total > 0,
                tp >= 0,
        ;
    }
}

/// What a claim by `who` for epoch `e` at block `now` answers, in the order of the checks:
/// an epoch that is not in its claim period answers `RewardPoolNotCalculated` while it has
/// no reward pool (never finalized, or never opened) and `ClaimPeriodExpired` otherwise.
pub open spec fn claim_outcome(s: PezRewards, assets: Ledger, who: AccountId, e: u32, now: BlockNumber) -> Result<(), RewardsError> {
    if s.status_of(e) != EpochState::ClaimPeriod {
        if s.pool_of(e) is None {
            Err(RewardsError::RewardPoolNotCalculated)
        } else {
            Err(RewardsError::ClaimPeriodExpired)
        }
    } else if s.claimed_in(e, who) is Some {
        Err(RewardsError::RewardAlreadyClaimed)
    } else if s.pool_of(e) is None {
        Err(RewardsError::RewardPoolNotCalculated)
    } else if now > s.pool_of(e)->0.claim_deadline {
        Err(RewardsError::ClaimPeriodExpired)
    } else if s.score_in(e, who) is None {
        Err(RewardsError::NoTrustScoreForEpoch)
    } else if s.pool_of(e)->0.reward_per_trust_point * s.score_in(e, who)->0 > Balance::MAX {
        Err(RewardsError::CalculationOverflow)
    } else if s.pool_of(e)->0.reward_per_trust_point * s.score_in(e, who)->0 == 0 {
        Err(RewardsError::NoRewardToClaim)
    } else {
        match transfer_outcome(
            assets,
            pot_of(s.config),
            who,
            (s.pool_of(e)->0.reward_per_trust_point * s.score_in(e, who)->0) as Balance,
            false,
        ) {
            Ok(()) => Ok(()),
            Err(err) => Err(RewardsError::Asset(err)),
        }
    }
}

/// What closing epoch `e` at block `now` answers, in the order of the checks.
pub open spec fn close_outcome(s: PezRewards, assets: Ledger, e: u32, now: BlockNumber) -> Result<(), RewardsError> {
    let pot = pot_of(s.config);
    let remaining = assets.free(pot);
    if s.status_of(e) != EpochState::ClaimPeriod {
        Err(RewardsError::EpochAlreadyClosed)
    } else if s.pool_of(e) is None {
        Err(RewardsError::RewardPoolNotCalculated)
    } else if now <= s.pool_of(e)->0.claim_deadline {
        Err(RewardsError::ClaimPeriodExpired)
    } else if remaining > 0 && transfer_outcome(assets, pot, s.config.clawback_recipient, remaining, false) is Err {
        Err(RewardsError::Asset(transfer_outcome(assets, pot, s.config.clawback_recipient, remaining, false)->Err_0))
    } else {
        Ok(())
    }
}

impl PezRewards {
    /// `do_claim_reward`: during the claim period of epoch `e`, pays `who` its reward, the
    /// epoch's reward per trust point times its recorded score, from the incentive pot,
    /// once.
    pub fn do_claim_reward(&mut self, assets: &mut Ledger, who: AccountId, e: u32, now: BlockNumber) -> (r: Result<(), RewardsError>)
        requires
            old(assets).wf(),
        ensures
            final(assets).wf(),
            r == claim_outcome(*old(self), *old(assets), who, e, now),
            r is Err ==> *final(self) == *old(self) && *final(assets) == *old(assets),
            r is Ok ==> {
                let reward = (old(self).pool_of(e)->0.reward_per_trust_point * old(self).score_in(e, who)->0) as Balance;
                let pot = pot_of(old(self).config);
                &&& final(self).claimed_in(e, who) == Some(reward)
                &&& forall|e2: u32, a: AccountId| (e2 != e || a != who) ==> #[trigger] final(self).claimed_in(e2, a)
                    == old(self).claimed_in(e2, a)
                &&& final(self).events@ == old(self).events@.push(
                    RewardsEvent::RewardClaimed { user: who, epoch_index: e, amount: reward },
                )
                &&& final(self).epoch_info == old(self).epoch_info
                &&& final(self).epoch_status == old(self).epoch_status
                &&& final(self).reward_pools == old(self).reward_pools
                &&& final(self).user_scores == old(self).user_scores
                &&& final(self).nft_owners == old(self).nft_owners
                &&& final(self).config == old(self).config
                &&& pot != who ==> final(assets).free(who) == old(assets).free(who) + reward
                    && final(assets).free(pot) == old(assets).free(pot) - reward
                    && final(assets).same_except(&*old(assets), set![pot, who])
                &&& pot == who ==> *final(assets) == *old(assets)
                &&& final(assets).issuance() == old(assets).issuance()
            },
    {
        if self.epoch_status(e) != EpochState::ClaimPeriod {
            if !self.reward_pools.contains_key(e as u64) {
                return Err(RewardsError::RewardPoolNotCalculated);
            }
            return Err(RewardsError::ClaimPeriodExpired);
        }
        let already = match self.claimed.get(e as u64) {
            Some(inner) => inner.contains_key(who),
            None => false,
        };
        if already {
            return Err(RewardsError::RewardAlreadyClaimed);
        }
        let pool = match self.reward_pools.get(e as u64) {
            Some(p) => *p,
            None => return Err(RewardsError::RewardPoolNotCalculated),
        };
        if now > pool.claim_deadline {
            return Err(RewardsError::ClaimPeriodExpired);
        }
        let score: u128 = match self.user_scores.get(e as u64) {
            Some(inner) => match inner.get(who) {
                Some(v) => *v,
                None => return Err(RewardsError::NoTrustScoreForEpoch),
            },
            None => return Err(RewardsError::NoTrustScoreForEpoch),
        };
        let reward = match pool.reward_per_trust_point.checked_mul(score) {
            Some(x) => x,
            None => return Err(RewardsError::CalculationOverflow),
        };
        if reward == 0 {
            return Err(RewardsError::NoRewardToClaim);
        }
        let pot = self.incentive_pot_account_id();
        match assets.transfer(pot, who, reward, false) {
            Ok(()) => {},
            Err(err) => return Err(RewardsError::Asset(err)),
        }
        let mut inner = match self.claimed.remove(e as u64) {
            Some(m) => m,
            None => KeyMap::new(),
        };
        inner.insert(who, reward);
        self.claimed.insert(e as u64, inner);
        self.events.push(RewardsEvent::RewardClaimed { user: who, epoch_index: e, amount: reward });
        proof {
            assert forall|e2: u32, a: AccountId| (e2 != e || a != who) implies #[trigger] self.claimed_in(e2, a)
                == old(self).claimed_in(e2, a) by {
                if e2 as u64 == e as u64 {
                    assert(e2 == e);
                }
            }
        }
        Ok(())
    }

    /// `do_close_epoch`: after the claim period of epoch `e`, moves everything left in the
    /// incentive pot to the clawback recipient and closes the epoch.
    pub fn do_close_epoch(&mut self, assets: &mut Ledger, e: u32, now: BlockNumber) -> (r: Result<(), RewardsError>)
        requires
            old(assets).wf(),
        ensures
            final(assets).wf(),
            r == close_outcome(*old(self), *old(assets), e, now),
            r is Err ==> *final(self) == *old(self) && *final(assets) == *old(assets),
            r is Ok ==> {
                let pot = pot_of(old(self).config);
                let to = old(self).config.clawback_recipient;
                let remaining = old(assets).free(pot);
                &&& final(self).epoch_status@ == old(self).epoch_status@.insert(e as u64, EpochState::Closed)
                &&& final(self).events@ == old(self).events@.push(
                    RewardsEvent::EpochClosed { epoch_index: e, unclaimed_amount: remaining, clawback_recipient: to },
                )
                &&& final(self).epoch_info == old(self).epoch_info
                &&& final(self).reward_pools == old(self).reward_pools
                &&& final(self).user_scores == old(self).user_scores
                &&& final(self).claimed == old(self).claimed
                &&& final(self).nft_owners == old(self).nft_owners
                &&& final(self).config == old(self).config
                &&& pot != to ==> final(assets).free(pot) == 0 && final(assets).free(to) == old(assets).free(to)
                    + remaining && final(assets).same_except(&*old(assets), set![pot, to])
                &&& pot == to ==> *final(assets) == *old(assets)
                &&& final(assets).issuance() == old(assets).issuance()
            },
    {
        if self.epoch_status(e) != EpochState::ClaimPeriod {
            return Err(RewardsError::EpochAlreadyClosed);
        }
        let pool = match self.reward_pools.get(e as u64) {
            Some(p) => *p,
            None => return Err(RewardsError::RewardPoolNotCalculated),
        };
        if now <= pool.claim_deadline {
            return Err(RewardsError::ClaimPeriodExpired);
        }
        let pot = self.incentive_pot_account_id();
        let remaining = assets.free_balance(pot);
        let to = self.config.clawback_recipient;
        if remaining > 0 {
            match assets.transfer(pot, to, remaining, false) {
                Ok(()) => {},
                Err(err) => return Err(RewardsError::Asset(err)),
            }
        }
        self.epoch_status.insert(e as u64, EpochState::Closed);
        self.events.push(RewardsEvent::EpochClosed { epoch_index: e, unclaimed_amount: remaining, clawback_recipient: to });
        Ok(())
    }

    /// `get_current_epoch_info`: the current epoch.
    pub fn get_current_epoch_info(&self) -> (r: EpochData)
        ensures
            r == self.epoch_data(),
    {
        self.current_epoch_data()
    }

    /// `get_epoch_reward_pool`: the reward pool of epoch `e`, once calculated.
    pub fn get_epoch_reward_pool(&self, e: u32) -> (r: Option<EpochRewardPool>)
        ensures
            r == self.pool_of(e),
    {
        match self.reward_pools.get(e as u64) {
            Some(p) => Some(*p),
            None => None,
        }
    }

    /// `get_user_trust_score_for_epoch`: the trust score recorded for `who` in epoch `e`.
    pub fn get_user_trust_score_for_epoch(&self, e: u32, who: AccountId) -> (r: Option<u128>)
        ensures
            r == self.score_in(e, who),
    {
        match self.user_scores.get(e as u64) {
            Some(inner) => match inner.get(who) {
                Some(v) => Some(*v),
                None => None,
            },
            None => None,
        }
    }

    /// `get_claimed_reward`: the reward that `who` claimed for epoch `e`.
    pub fn get_claimed_reward(&self, e: u32, who: AccountId) -> (r: Option<Balance>)
        ensures
            r == self.claimed_in(e, who),
    {
        match self.claimed.get(e as u64) {
            Some(inner) => match inner.get(who) {
                Some(v) => Some(*v),
                None => None,
            },
            None => None,
        }
    }

    /// `get_parliamentary_nft_owner`: the registered owner of parliamentary NFT `nft_id`.
    pub fn get_parliamentary_nft_owner(&self, nft_id: u32) -> (r: Option<AccountId>)
        ensures
            r == (if self.nft_owners@.contains_key(nft_id as u64) {
                Some(self.nft_owners@[nft_id as u64])
            } else {
                None
            }),
    {
        match self.nft_owners.get(nft_id as u64) {
            Some(o) => Some(*o),
            None => None,
        }
    }

    /// `do_register_parliamentary_nft_owner`: records `owner` as the owner of parliamentary
    /// NFT `nft_id`.
    pub fn do_register_parliamentary_nft_owner(&mut self, nft_id: u32, owner: AccountId)
        ensures
            final(self).nft_owners@ == old(self).nft_owners@.insert(nft_id as u64, owner),
            final(self).events@ == old(self).events@.push(RewardsEvent::ParliamentaryOwnerRegistered { nft_id, owner }),
            final(self).epoch_info == old(self).epoch_info,
            final(self).epoch_status == old(self).epoch_status,
            final(self).reward_pools == old(self).reward_pools,
            final(self).user_scores == old(self).user_scores,
            final(self).claimed == old(self).claimed,
            final(self).config == old(self).config,
    {
        self.nft_owners.insert(nft_id as u64, owner);
        self.events.push(RewardsEvent::ParliamentaryOwnerRegistered { nft_id, owner });
    }

    /// `initialize_rewards_system`: the force origin (root) opens epoch zero.
    pub fn initialize_rewards_system(&mut self, origin: Origin, now: BlockNumber) -> (r: Result<(), RewardsError>)
        ensures
            origin != Origin::Root ==> r == Err::<(), RewardsError>(RewardsError::BadOrigin),
            origin == Origin::Root && old(self).epoch_info is Some ==> r == Err::<(), RewardsError>(RewardsError::AlreadyInitialized),
            origin == Origin::Root && old(self).epoch_info is None ==> r is Ok && final(self).epoch_info == Some(
                EpochData { current_epoch: 0, epoch_start_block: now, total_epochs_completed: 0 },
            ) && final(self).status_of(0) == EpochState::Open,
            r is Err ==> *final(self) == *old(self),
    {
        if origin != Origin::Root {
            return Err(RewardsError::BadOrigin);
        }
        self.do_initialize_rewards_system(now)
    }

    /// `record_trust_score`: a signed account records its trust score for the current epoch.
    pub fn record_trust_score<T: TrustScoreProvider>(&mut self, trust: &T, origin: Origin) -> (r: Result<(), RewardsError>)
        ensures
            signer_of(origin) is None ==> r == Err::<(), RewardsError>(RewardsError::BadOrigin),
            signer_of(origin) matches Some(who) ==> {
                let e = old(self).epoch_data().current_epoch;
                &&& (r is Ok <==> old(self).status_of(e) == EpochState::Open)
                &&& r is Err ==> r == Err::<(), RewardsError>(RewardsError::EpochAlreadyClosed)
                &&& r is Ok && trust.trust_score_value(who) > 0 ==> final(self).score_in(e, who) == Some(
                    trust.trust_score_value(who),
                )
                &&& r is Ok && trust.trust_score_value(who) == 0 ==> *final(self) == *old(self)
            },
            r is Err ==> *final(self) == *old(self),
    {
        let who = match ensure_signed(origin) {
            Some(w) => w,
            None => return Err(RewardsError::BadOrigin),
        };
        self.do_record_trust_score(trust, who)
    }

    /// `finalize_epoch`: the force origin (root) finalizes the current epoch.
    pub fn finalize_epoch(&mut self, origin: Origin, assets: &mut Ledger, now: BlockNumber) -> (r: Result<(), RewardsError>)
        requires
            old(assets).wf(),
            finalize_fits(*old(self), *old(assets), now),
        ensures
            final(assets).wf(),
            origin != Origin::Root ==> r == Err::<(), RewardsError>(RewardsError::BadOrigin),
            origin == Origin::Root ==> r == finalize_outcome(*old(self), *old(assets), now),
            r is Err ==> *final(self) == *old(self) && final(assets).same_balances(&*old(assets)),
    {
        if origin != Origin::Root {
            return Err(RewardsError::BadOrigin);
        }
        self.do_finalize_epoch(assets, now)
    }

    /// `claim_reward`: a signed account claims its reward for epoch `e`.
    pub fn claim_reward(&mut self, origin: Origin, assets: &mut Ledger, e: u32, now: BlockNumber) -> (r: Result<(), RewardsError>)
        requires
            old(assets).wf(),
        ensures
            final(assets).wf(),
            signer_of(origin) is None ==> r == Err::<(), RewardsError>(RewardsError::BadOrigin),
            signer_of(origin) matches Some(who) ==> r == claim_outcome(*old(self), *old(assets), who, e, now)
                && (r is Ok ==> final(self).claimed_in(e, who) == Some(
                (old(self).pool_of(e)->0.reward_per_trust_point * old(self).score_in(e, who)->0) as Balance,
            )),
            r is Err ==> *final(self) == *old(self) && *final(assets) == *old(assets),
    {
        let who = match ensure_signed(origin) {
            Some(w) => w,
            None => return Err(RewardsError::BadOrigin),
        };
        self.do_claim_reward(assets, who, e, now)
    }

    /// `close_epoch`: the force origin (root) closes epoch `e`.
    pub fn close_epoch(&mut self, origin: Origin, assets: &mut Ledger, e: u32, now: BlockNumber) -> (r: Result<(), RewardsError>)
        requires
            old(assets).wf(),
        ensures
            final(assets).wf(),
            origin != Origin::Root ==> r == Err::<(), RewardsError>(RewardsError::BadOrigin),
            origin == Origin::Root ==> r == close_outcome(*old(self), *old(assets), e, now),
            r is Ok ==> final(self).status_of(e) == EpochState::Closed,
            r is Err ==> *final(self) == *old(self) && *final(assets) == *old(assets),
    {
        if origin != Origin::Root {
            return Err(RewardsError::BadOrigin);
        }
        self.do_close_epoch(assets, e, now)
    }

    /// `register_parliamentary_nft_owner`: the force origin (root) registers the owner of a
    /// parliamentary NFT.
    pub fn register_parliamentary_nft_owner(&mut self, origin: Origin, nft_id: u32, owner: AccountId) -> (r: Result<(), RewardsError>)
        ensures
            origin != Origin::Root ==> r == Err::<(), RewardsError>(RewardsError::BadOrigin) && *final(self) == *old(self),
            origin == Origin::Root ==> r is Ok && final(self).nft_owners@ == old(self).nft_owners@.insert(nft_id as u64, owner),
    {
        if origin != Origin::Root {
            return Err(RewardsError::BadOrigin);
        }
        self.do_register_parliamentary_nft_owner(nft_id, owner);
        Ok(())
    }

}

/// The genesis configuration of the pallet.
#[derive(Clone, Copy, Debug)]
pub struct GenesisConfig {
    /// Whether epoch zero opens at genesis.
    pub start_rewards_system: bool,
}

impl Default for GenesisConfig {
    fn default() -> (r: Self)
        ensures
            !r.start_rewards_system,
    {
        GenesisConfig { start_rewards_system: false }
    }
}

impl GenesisConfig {
    /// Builds the genesis storage: opens epoch zero at block `now` when
    /// `start_rewards_system` is set (a failure is ignored).
    pub fn build(&self, pallet: &mut PezRewards, now: BlockNumber)
        ensures
            !self.start_rewards_system || old(pallet).epoch_info is Some ==> *final(pallet) == *old(pallet),
            self.start_rewards_system && old(pallet).epoch_info is None ==> final(pallet).epoch_info == Some(
                EpochData { current_epoch: 0, epoch_start_block: now, total_epochs_completed: 0 },
            ),
    {
        if self.start_rewards_system {
            let _ = pallet.do_initialize_rewards_system(now);
        }
    }
}

/// A reward is claimed at most once per account and epoch: once claimed, a new claim is
/// refused.
pub proof fn lemma_claim_once(s: PezRewards, assets: Ledger, who: AccountId, e: u32, now: BlockNumber)
    requires
        s.status_of(e) == EpochState::ClaimPeriod,
        s.claimed_in(e, who) is Some,
    ensures
        claim_outcome(s, assets, who, e, now) == Err::<(), RewardsError>(RewardsError::RewardAlreadyClaimed),
{
}

/// What a reward claim needs: the epoch in its claim period with its pool calculated, the
/// claim before the pool's deadline, no earlier claim of the account in that epoch, and a
/// recorded trust score whose reward (reward per point times score) is positive and fits.
pub proof fn lemma_claim_needs(s: PezRewards, assets: Ledger, who: AccountId, e: u32, now: BlockNumber)
    ensures
        claim_outcome(s, assets, who, e, now) is Ok ==> {
            &&& s.status_of(e) == EpochState::ClaimPeriod
            &&& s.claimed_in(e, who) is None
            &&& s.pool_of(e) is Some
            &&& now <= s.pool_of(e)->0.claim_deadline
            &&& s.score_in(e, who) is Some
            &&& 0 < s.pool_of(e)->0.reward_per_trust_point * s.score_in(e, who)->0 <= Balance::MAX
        },
        s.status_of(e) == EpochState::ClaimPeriod && s.claimed_in(e, who) is Some ==> claim_outcome(s, assets, who, e, now)
            == Err::<(), RewardsError>(RewardsError::RewardAlreadyClaimed),
{
}

} // verus!
