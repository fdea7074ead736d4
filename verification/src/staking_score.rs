//! Staking score: a score from the amount an account stakes, multiplied by how long it has
//! been staking once it asked for its staking time to be tracked.
use vstd::prelude::*;
use crate::primitives::{AccountId, Balance, BlockNumber, Origin, signer_of, ensure_signed, RuntimeDbWeight, Weight, benchmarked, with_db};
use crate::storage::KeyMap;

verus! {

/// Blocks in a month (thirty days of ten blocks a minute).
pub const MONTH_IN_BLOCKS: u32 = 432_000;

/// Units in one HEZ (12 decimals).
pub const UNITS: u128 = 1_000_000_000_000;

/// The raw staking score.
pub type RawScore = u32;

/// What the staking system knows of an account's stake.
#[derive(Clone, Copy, Debug, PartialEq, Eq, Structural)]
pub struct StakingDetails {
    pub staked_amount: Balance,
    pub nominations_count: u32,
    pub unlocking_chunks_count: u32,
}

impl Default for StakingDetails {
    fn default() -> (r: Self)
        ensures
            r == (StakingDetails { staked_amount: 0, nominations_count: 0, unlocking_chunks_count: 0 }),
    {
        StakingDetails { staked_amount: 0, nominations_count: 0, unlocking_chunks_count: 0 }
    }
}

/// Query of the staking system.
pub trait StakingInfoProvider {
    /// What the staking system knows of the stake of `who`.
    spec fn staking_details_of(&self, who: AccountId) -> Option<StakingDetails>;

    /// What the staking system knows of the stake of `who`.
    fn get_staking_details(&self, who: AccountId) -> (r: Option<StakingDetails>)
        ensures
            r == self.staking_details_of(who),
    ;
}

/// A staking system in which every account stakes 1000 HEZ with five nominations and two
/// unlocking chunks (used to measure the pallet's weights).
pub struct BenchmarkStakingInfoProvider;

impl StakingInfoProvider for BenchmarkStakingInfoProvider {
    open spec fn staking_details_of(&self, who: AccountId) -> Option<StakingDetails> {
        Some(StakingDetails { staked_amount: (1000 * UNITS) as Balance, nominations_count: 5, unlocking_chunks_count: 2 })
    }

    fn get_staking_details(&self, who: AccountId) -> (r: Option<StakingDetails>) {
        Some(StakingDetails { staked_amount: 1000 * UNITS, nominations_count: 5, unlocking_chunks_count: 2 })
    }
}

/// The score of a stake, by whole HEZ staked: none for less than one, 20 up to 100, 30 up to
/// 250, 40 up to 750, and 50 above.
pub open spec fn amount_score(staked: Balance) -> RawScore {
    let hez = staked / UNITS;
    if hez == 0 {
        0
    } else if hez <= 100 {
        20
    } else if hez <= 250 {
        30
    } else if hez <= 750 {
        40
    } else {
        50
    }
}

/// The score after the duration multiplier: x2 from twelve months of tracked staking, x1.7
/// from six, x1.4 from three, x1.2 from one, rounded down.
pub open spec fn duration_score(amount: RawScore, duration: BlockNumber) -> int {
    if duration >= 12 * MONTH_IN_BLOCKS {
        amount * 2
    } else if duration >= 6 * MONTH_IN_BLOCKS {
        amount * 17 / 10
    } else if duration >= 3 * MONTH_IN_BLOCKS {
        amount * 14 / 10
    } else if duration >= MONTH_IN_BLOCKS {
        amount * 12 / 10
    } else {
        amount as int
    }
}

/// The staking score and the tracked duration of an account with stake `details`, whose
/// tracking started at `start` (if it did), at block `now`; the score is capped at 100.
pub open spec fn staking_score(details: Option<StakingDetails>, start: Option<BlockNumber>, now: BlockNumber) -> (RawScore, BlockNumber) {
    match details {
        None => (0, 0),
        Some(d) => {
            let a = amount_score(d.staked_amount);
            if a == 0 {
                (0, 0)
            } else {
                match start {
                    None => (a, 0),
                    Some(s) => {
                        let dur: BlockNumber = if now >= s {
                            (now - s) as BlockNumber
                        } else {
                            0
                        };
                        let score = duration_score(a, dur);
                        (if score > 100 {
                            100
                        } else {
                            score as RawScore
                        }, dur)
                    },
                }
            }
        },
    }
}

/// Events of the pallet.
#[derive(Clone, Copy, Debug, PartialEq, Eq, Structural)]
pub enum StakingScoreEvent {
    ScoreTrackingStarted { who: AccountId, start_block: BlockNumber },
}

/// Errors of the pallet.
#[derive(Clone, Copy, Debug, PartialEq, Eq, Structural)]
pub enum StakingScoreError {
    /// The call was not signed.
    BadOrigin,
    NoStakeFound,
    TrackingAlreadyStarted,
}

/// The storage of the staking score pallet.
pub struct StakingScore {
    /// `StakingStartBlock`: when each account started having its staking time tracked.
    pub start_blocks: KeyMap<BlockNumber>,
    /// Events deposited so far.
    pub events: Vec<StakingScoreEvent>,
}

impl StakingScore {
    /// The block at which tracking started for `who`, if it did.
    pub open spec fn start_of(&self, who: AccountId) -> Option<BlockNumber> {
        if self.start_blocks@.contains_key(who) {
            Some(self.start_blocks@[who])
        } else {
            None
        }
    }

    /// A pallet with empty storage.
    pub fn new() -> (s: Self)
        ensures
            forall|who: AccountId| #[trigger] s.start_of(who) is None,
            s.events@ == Seq::<StakingScoreEvent>::empty(),
    {
        StakingScore { start_blocks: KeyMap::new(), events: Vec::new() }
    }

    /// `staking_start_block`: the block at which tracking started for `who`, if it did.
    pub fn staking_start_block(&self, who: AccountId) -> (r: Option<BlockNumber>)
        ensures
            r == self.start_of(who),
    {
        match self.start_blocks.get(who) {
            Some(b) => Some(*b),
            None => None,
        }
    }

    /// `start_score_tracking`: a staking account starts having its staking time tracked
    /// from block `now`.
    pub fn start_score_tracking<I: StakingInfoProvider>(&mut self, info: &I, origin: Origin, now: BlockNumber) -> (r: Result<(), StakingScoreError>)
        ensures
            r is Err ==> *final(self) == *old(self),
            signer_of(origin) is None ==> r == Err::<(), StakingScoreError>(StakingScoreError::BadOrigin),
            signer_of(origin) matches Some(who) ==> {
                if old(self).start_of(who) is Some {
                    r == Err::<(), StakingScoreError>(StakingScoreError::TrackingAlreadyStarted)
                } else if info.staking_details_of(who) is None || info.staking_details_of(who)->0.staked_amount == 0 {
                    r == Err::<(), StakingScoreError>(StakingScoreError::NoStakeFound)
                } else {
                    &&& r is Ok
                    &&& final(self).start_blocks@ == old(self).start_blocks@.insert(who, now)
                    &&& final(self).events@ == old(self).events@.push(
                        StakingScoreEvent::ScoreTrackingStarted { who, start_block: now },
                    )
                }
            },
    {
        let who = match ensure_signed(origin) {
            Some(w) => w,
            None => return Err(StakingScoreError::BadOrigin),
        };
        if self.start_blocks.contains_key(who) {
            return Err(StakingScoreError::TrackingAlreadyStarted);
        }
        let details = match info.get_staking_details(who) {
            Some(d) => d,
            None => return Err(StakingScoreError::NoStakeFound),
        };
        if details.staked_amount == 0 {
            return Err(StakingScoreError::NoStakeFound);
        }
        self.start_blocks.insert(who, now);
        self.events.push(StakingScoreEvent::ScoreTrackingStarted { who, start_block: now });
        Ok(())
    }

    /// `get_staking_score`: the staking score of `who` at block `now`, with the tracked
    /// duration (zero when untracked).
    pub fn get_staking_score<I: StakingInfoProvider>(&self, info: &I, who: AccountId, now: BlockNumber) -> (r: (RawScore, BlockNumber))
        ensures
            r == staking_score(info.staking_details_of(who), self.start_of(who), now),
            r.0 <= 100,
    {
        let details = match info.get_staking_details(who) {
            Some(d) => d,
            None => return (0, 0),
        };
        let staked_hez = details.staked_amount / UNITS;
        if staked_hez == 0 {
            return (0, 0);
        }
        let amount_score: u32 = if staked_hez <= 100 {
            20
        } else if staked_hez <= 250 {
            30
        } else if staked_hez <= 750 {
            40
        } else {
            50
        };
        match self.staking_start_block(who) {
            Some(start) => {
                let duration: u64 = if now >= start {
                    now - start
                } else {
                    0
                };
                let m = MONTH_IN_BLOCKS as u64;
                let score: u32 = if duration >= 12 * m {
                    amount_score * 2
                } else if duration >= 6 * m {
                    amount_score * 17 / 10
                } else if duration >= 3 * m {
                    amount_score * 14 / 10
                } else if duration >= m {
                    amount_score * 12 / 10
                } else {
                    amount_score
                };
                (if score > 100 {
                    100
                } else {
                    score
                }, duration)
            },
            None => (amount_score, 0),
        }
    }
}

/// The staking score of a stake of at least one HEZ: the amount score is 20 up to 100 HEZ, 30
/// up to 250, 40 up to 750 and 50 above; tracked for `d = now - s` blocks, it is multiplied
/// by 1 below one month (432 000 blocks), 1.2 from one month, 1.4 from three, 1.7 from six
/// and 2 only from twelve months, rounded down and capped at 100. The answer carries `d`.
pub proof fn lemma_staking_score_schedule(st: StakingDetails, s: BlockNumber, now: BlockNumber)
    requires
        s <= now,
    ensures
        ({
            let hez = st.staked_amount / UNITS;
            let a = staking_score(Some(st), None, now).0 as int;
            let t = staking_score(Some(st), Some(s), now);
            let d = now - s;
            &&& hez == 0 ==> t == (0u32, 0u64) && a == 0
            &&& 1 <= hez <= 100 ==> a == 20
            &&& 101 <= hez <= 250 ==> a == 30
            &&& 251 <= hez <= 750 ==> a == 40
            &&& hez > 750 ==> a == 50
            &&& hez > 0 ==> t.1 == d
            &&& hez > 0 && d < 432_000 ==> t.0 == a
            &&& hez > 0 && 432_000 <= d < 1_296_000 ==> t.0 == (if a * 12 / 10 > 100 { 100 } else { a * 12 / 10 })
            &&& hez > 0 && 1_296_000 <= d < 2_592_000 ==> t.0 == (if a * 14 / 10 > 100 { 100 } else { a * 14 / 10 })
            &&& hez > 0 && 2_592_000 <= d < 5_184_000 ==> t.0 == (if a * 17 / 10 > 100 { 100 } else { a * 17 / 10 })
            &&& hez > 0 && d >= 5_184_000 ==> t.0 == (if a * 2 > 100 { 100 } else { a * 2 })
        }),
{
}

/// A staking score never exceeds 100 and never falls as the tracked duration grows.
pub proof fn lemma_staking_score_monotone(d: StakingDetails, s: BlockNumber, now1: BlockNumber, now2: BlockNumber)
    requires
        s <= now1 <= now2,
    ensures
        staking_score(Some(d), Some(s), now1).0 <= staking_score(Some(d), Some(s), now2).0,
        staking_score(Some(d), Some(s), now2).0 <= 100,
{
}

/// Query of an account's staking score.
pub trait StakingScoreProvider {
    /// The staking score of `who` and its tracked duration.
    spec fn staking_score_of(&self, who: AccountId) -> (RawScore, BlockNumber);

    /// The staking score of `who` and its tracked duration.
    fn get_staking_score(&self, who: AccountId) -> (r: (RawScore, BlockNumber))
        ensures
            r == self.staking_score_of(who),
    ;
}

/// The staking score pallet read at block `now`, with `info` as its staking system.
pub struct StakingScoreAt<'a, I: StakingInfoProvider> {
    pub pallet: &'a StakingScore,
    pub info: &'a I,
    pub now: BlockNumber,
}

impl<'a, I: StakingInfoProvider> StakingScoreProvider for StakingScoreAt<'a, I> {
    open spec fn staking_score_of(&self, who: AccountId) -> (RawScore, BlockNumber) {
        staking_score(self.info.staking_details_of(who), self.pallet.start_of(who), self.now)
    }

    fn get_staking_score(&self, who: AccountId) -> (r: (RawScore, BlockNumber)) {
        self.pallet.get_staking_score(self.info, who, self.now)
    }
}

/// The weights of the calls of the pallet.
pub trait WeightInfo {
    fn start_score_tracking(db: RuntimeDbWeight) -> Weight;
}

/// The benchmarked weights of the calls of the staking score pallet, with the storage reads and writes
/// priced by the runtime's `db`.
pub struct SubstrateWeight;

impl WeightInfo for SubstrateWeight {
    fn start_score_tracking(db: RuntimeDbWeight) -> (out: Weight)
        ensures
            out == benchmarked(30_000_000, 0, db, 2, 1),
    {
        with_db(Weight::from_parts(30_000_000, 0), db, 2, 1)
    }
}

} // verus!
