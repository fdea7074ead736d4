//! Trust scores: a citizen's trust score combines its staking, referral, education (perwerde)
//! and role (tiki) scores; the pallet keeps every account's score and their running total,
//! and recomputes the scores of all KYC-approved accounts in batches.
use vstd::prelude::*;
use crate::primitives::{AccountId, BlockNumber, Origin, RuntimeDbWeight, Weight, benchmarked, with_db};
use crate::identity_kyc::{IdentityKyc, KycLevel};
use crate::staking_score::StakingScoreProvider;
use crate::storage::{KeyMap, value_sum, lemma_value_sum_insert, lemma_value_le_sum};
use crate::tiki::{TikiPallet, tikis_score};

pub use crate::referral::ReferralScoreProvider;

verus! {

/// Query of whether an account is a citizen.
pub trait CitizenshipStatusProvider {
    /// Whether `who` is a citizen.
    spec fn citizen(&self, who: AccountId) -> bool;

    /// Whether `who` is a citizen.
    fn is_citizen(&self, who: AccountId) -> (r: bool)
        ensures
            r == self.citizen(who),
    ;
}

/// Query of an account's education score.
pub trait PerwerdeScoreProvider {
    /// The education score of `who`.
    spec fn perwerde_score_of(&self, who: AccountId) -> u32;

    /// The education score of `who`.
    fn get_perwerde_score(&self, who: AccountId) -> (r: u32)
        ensures
            r == self.perwerde_score_of(who),
    ;
}

/// Query of an account's role score.
pub trait TikiScoreProvider {
    /// The role score of `who`.
    spec fn tiki_score_of(&self, who: AccountId) -> u32;

    /// The role score of `who`.
    fn get_tiki_score(&self, who: AccountId) -> (r: u32)
        ensures
            r == self.tiki_score_of(who),
    ;
}

/// Query of an account's trust score.
pub trait TrustScoreProvider {
    /// The trust score of `who`.
    spec fn trust_score_value(&self, who: AccountId) -> u128;

    /// The trust score of `who`.
    fn trust_score_of(&self, who: AccountId) -> (r: u128)
        ensures
            r == self.trust_score_value(who),
    ;
}

impl CitizenshipStatusProvider for TikiPallet {
    open spec fn citizen(&self, who: AccountId) -> bool {
        self.citizen_of(who) is Some
    }

    fn is_citizen(&self, who: AccountId) -> (r: bool) {
        TikiPallet::is_citizen(self, who)
    }
}

impl TikiScoreProvider for TikiPallet {
    /// The tiki score of `who`, saturated at the largest `u32`.
    open spec fn tiki_score_of(&self, who: AccountId) -> u32 {
        if self.score_of(who) > u32::MAX {
            u32::MAX
        } else {
            self.score_of(who) as u32
        }
    }

    fn get_tiki_score(&self, who: AccountId) -> (r: u32) {
        let roles = self.user_tikis(who);
        let mut sum: u32 = 0;
        let mut i: usize = 0;
        while i < roles.len()
            invariant
                i <= roles@.len(),
                roles@ == self.tikis_of(who),
                sum == (if tikis_score(roles@.take(i as int)) > u32::MAX {
                    u32::MAX
                } else {
                    tikis_score(roles@.take(i as int)) as u32
                }),
            decreases roles@.len() - i,
        {
            proof {
                assert(roles@.take(i + 1).drop_last() =~= roles@.take(i as int));
            }
            sum = sum.saturating_add(crate::tiki::get_bonus_for_tiki(&roles[i]));
            i += 1;
        }
        proof {
            assert(roles@.take(i as int) =~= roles@);
        }
        sum
    }
}

/// The providers of the four components of a trust score and of citizenship.
pub struct TrustSources<'a, C, St, R, P, Ti> {
    pub citizenship: &'a C,
    pub staking: &'a St,
    pub referral: &'a R,
    pub perwerde: &'a P,
    pub tiki: &'a Ti,
}

/// Errors of the pallet.
#[derive(Clone, Copy, Debug, PartialEq, Eq, Structural)]
pub enum TrustError {
    /// The origin may not make this call.
    BadOrigin,
    CalculationOverflow,
    NotACitizen,
    UpdateInProgress,
}

/// The trust score of a citizen with the given component scores, for the multiplier base
/// `base`: none without stake; otherwise `staking * (100 staking + 300 referral + 300 perwerde
/// + 300 tiki) / base`, which fails with `CalculationOverflow` for a zero base.
pub open spec fn trust_formula(staking: u32, referral: u32, perwerde: u32, tiki: u32, base: u128) -> Result<u128, TrustError> {
    if staking == 0 {
        Ok(0)
    } else if base == 0 {
        Err(TrustError::CalculationOverflow)
    } else {
        Ok(((staking * (staking * 100 + referral * 300 + perwerde * 300 + tiki * 300)) / (base as int)) as u128)
    }
}

impl<'a, C: CitizenshipStatusProvider, St: StakingScoreProvider, R: ReferralScoreProvider, P: PerwerdeScoreProvider, Ti: TikiScoreProvider> TrustSources<'a, C, St, R, P, Ti> {
    /// The trust score that the sources give `who`: `NotACitizen` for a non-citizen.
    pub open spec fn expected_score(&self, who: AccountId, base: u128) -> Result<u128, TrustError> {
        if !self.citizenship.citizen(who) {
            Err(TrustError::NotACitizen)
        } else {
            trust_formula(
                self.staking.staking_score_of(who).0,
                self.referral.referral_score_of(who),
                self.perwerde.perwerde_score_of(who),
                self.tiki.tiki_score_of(who),
                base,
            )
        }
    }
}

/// The pallet's constants.
#[derive(Clone, Copy, Debug, PartialEq, Eq, Structural)]
pub struct TrustConfig {
    /// The divisor of the trust formula.
    pub score_multiplier_base: u128,
    /// Blocks between periodic updates.
    pub update_interval: BlockNumber,
}

/// Events of the pallet.
#[derive(Clone, Copy, Debug, PartialEq, Eq, Structural)]
pub enum TrustEvent {
    TrustScoreUpdated { who: AccountId, old_score: u128, new_score: u128 },
    TotalTrustScoreUpdated { new_total: u128 },
    BulkTrustScoreUpdate { count: u32 },
    AllTrustScoresUpdated { total_updated: u32 },
    PeriodicUpdateScheduled { next_block: BlockNumber },
}

/// The storage of the trust pallet.
pub struct TrustPallet {
    pub config: TrustConfig,
    /// `TrustScores`: the trust score of each account (absent means zero).
    pub scores: KeyMap<u128>,
    /// `TotalActiveTrustScore`.
    pub total_active: u128,
    /// `LastProcessedAccount`: where an unfinished batch update resumes.
    pub last_processed: Option<AccountId>,
    /// `BatchUpdateInProgress`.
    pub batch_in_progress: bool,
    /// Events deposited so far.
    pub events: Vec<TrustEvent>,
}

/// What storing the recomputed score `new` of `who` makes of `s`: nothing when the score is
/// unchanged; otherwise the score is replaced, the total adjusted by the difference
/// (saturating at both ends), and two events deposited.
pub open spec fn score_stored(s: TrustPallet, after: TrustPallet, who: AccountId, new: u128) -> bool {
    if new == s.score_of(who) {
        after == s
    } else {
        let old_score = s.score_of(who);
        let sub = if s.total_active >= old_score {
            s.total_active - old_score
        } else {
            0
        };
        let new_total = crate::primitives::saturate_u128(sub + new);
        &&& after.scores@ == s.scores@.insert(who, new)
        &&& after.total_active == new_total
        &&& after.config == s.config
        &&& after.last_processed == s.last_processed
        &&& after.batch_in_progress == s.batch_in_progress
        &&& after.events@ == s.events@.push(TrustEvent::TrustScoreUpdated { who, old_score, new_score: new }).push(
            TrustEvent::TotalTrustScoreUpdated { new_total },
        )
    }
}

impl TrustPallet {
    /// The stored trust score of `who`.
    pub open spec fn score_of(&self, who: AccountId) -> u128 {
        if self.scores@.contains_key(who) {
            self.scores@[who]
        } else {
            0
        }
    }

    /// The sum of all stored trust scores.
    pub open spec fn scores_sum(&self) -> int {
        value_sum(self.scores.key_seq(), self.scores@)
    }

    /// A pallet with empty storage.
    pub fn new(config: TrustConfig) -> (s: Self)
        ensures
            s.config == config,
            forall|who: AccountId| #[trigger] s.score_of(who) == 0,
            s.total_active == 0,
            s.scores_sum() == 0,
            s.last_processed is None,
            !s.batch_in_progress,
            s.events@ == Seq::<TrustEvent>::empty(),
    {
        let s = TrustPallet {
            config,
            scores: KeyMap::new(),
            total_active: 0,
            last_processed: None,
            batch_in_progress: false,
            events: Vec::new(),
        };
        s
    }

    /// `trust_score_of`: the stored trust score of `who`.
    pub fn trust_score_of(&self, who: AccountId) -> (r: u128)
        ensures
            r == self.score_of(who),
    {
        match self.scores.get(who) {
            Some(v) => *v,
            None => 0,
        }
    }

    /// `total_active_trust_score`: the running total of the trust scores.
    pub fn total_active_trust_score(&self) -> (r: u128)
        ensures
            r == self.total_active,
    {
        self.total_active
    }

    /// `calculate_trust_score`: the trust score that the sources give `who` now.
    pub fn calculate_trust_score<C: CitizenshipStatusProvider, St: StakingScoreProvider, R: ReferralScoreProvider, P: PerwerdeScoreProvider, Ti: TikiScoreProvider>(
        &self,
        src: &TrustSources<C, St, R, P, Ti>,
        who: AccountId,
    ) -> (r: Result<u128, TrustError>)
        ensures
            r == src.expected_score(who, self.config.score_multiplier_base),
    {
        if !src.citizenship.is_citizen(who) {
            return Err(TrustError::NotACitizen);
        }
        let (staking, _) = src.staking.get_staking_score(who);
        if staking == 0 {
            return Ok(0);
        }
        let s = staking as u128;
        let referral = src.referral.get_referral_score(who) as u128;
        let perwerde = src.perwerde.get_perwerde_score(who) as u128;
        let tiki = src.tiki.get_tiki_score(who) as u128;
        let base = self.config.score_multiplier_base;
        let weighted_sum = s * 100 + referral * 300 + perwerde * 300 + tiki * 300;
        proof {
            assert(s * weighted_sum <= 0xffff_ffffu128 * (0xffff_ffffu128 * 1000)) by (nonlinear_arith)
                requires
                    s <= 0xffff_ffffu128,
                    weighted_sum <= 0xffff_ffffu128 * 1000,
            ;
        }
        let product = s * weighted_sum;
        if base == 0 {
            return Err(TrustError::CalculationOverflow);
        }
        Ok(product / base)
    }

    /// `update_score_for_account`: recomputes the trust score of `who`; when it changed, it
    /// is stored, the total is adjusted by the difference (saturating), and two events are
    /// deposited. Answers the new score.
    pub fn update_score_for_account<C: CitizenshipStatusProvider, St: StakingScoreProvider, R: ReferralScoreProvider, P: PerwerdeScoreProvider, Ti: TikiScoreProvider>(
        &mut self,
        src: &TrustSources<C, St, R, P, Ti>,
        who: AccountId,
    ) -> (r: Result<u128, TrustError>)
        ensures
            r == src.expected_score(who, old(self).config.score_multiplier_base),
            r is Err ==> *final(self) == *old(self),
            r matches Ok(new) ==> score_stored(*old(self), *final(self), who, new),
            r matches Ok(new) ==> final(self).scores_sum() == old(self).scores_sum() - old(self).score_of(who) + new,
            old(self).total_active == old(self).scores_sum() && final(self).scores_sum() <= u128::MAX
                ==> final(self).total_active == final(self).scores_sum(),
    {
        let old_score = self.trust_score_of(who);
        let new_score = match self.calculate_trust_score(src, who) {
            Ok(v) => v,
            Err(e) => return Err(e),
        };
        if old_score != new_score {
            let n = self.scores.len();
            let ghost keys = self.scores.key_seq();
            let ghost m = self.scores@;
            self.scores.insert(who, new_score);
            let sub = if self.total_active >= old_score {
                self.total_active - old_score
            } else {
                0
            };
            let new_total = sub.saturating_add(new_score);
            self.total_active = new_total;
            self.events.push(TrustEvent::TrustScoreUpdated { who, old_score, new_score });
            self.events.push(TrustEvent::TotalTrustScoreUpdated { new_total });
            proof {
                lemma_value_sum_insert(keys, m, who, new_score);
                if keys.contains(who) {
                    lemma_value_le_sum(keys, m, who);
                }
            }
        }
        Ok(new_score)
    }

    /// `force_recalculate_trust_score`: the root origin recomputes the trust score of `who`.
    pub fn force_recalculate_trust_score<C: CitizenshipStatusProvider, St: StakingScoreProvider, R: ReferralScoreProvider, P: PerwerdeScoreProvider, Ti: TikiScoreProvider>(
        &mut self,
        origin: Origin,
        src: &TrustSources<C, St, R, P, Ti>,
        who: AccountId,
    ) -> (r: Result<(), TrustError>)
        ensures
            origin != Origin::Root ==> r == Err::<(), TrustError>(TrustError::BadOrigin),
            origin == Origin::Root ==> (r is Ok <==> src.expected_score(who, old(self).config.score_multiplier_base) is Ok),
            origin == Origin::Root && r is Err ==> r == Err::<(), TrustError>(
                src.expected_score(who, old(self).config.score_multiplier_base)->Err_0,
            ),
            r is Err ==> *final(self) == *old(self),
            r is Ok ==> score_stored(
                *old(self),
                *final(self),
                who,
                src.expected_score(who, old(self).config.score_multiplier_base)->Ok_0,
            ),
            r is Ok ==> forall|a: AccountId| a != who ==> #[trigger] final(self).score_of(a) == old(self).score_of(a),
            old(self).total_active == old(self).scores_sum() && final(self).scores_sum() <= u128::MAX
                ==> final(self).total_active == final(self).scores_sum(),
    {
        if origin != Origin::Root {
            return Err(TrustError::BadOrigin);
        }
        match self.update_score_for_account(src, who) {
            Ok(_) => Ok(()),
            Err(e) => Err(e),
        }
    }
}

impl TrustScoreProvider for TrustPallet {
    open spec fn trust_score_value(&self, who: AccountId) -> u128 {
        self.score_of(who)
    }

    fn trust_score_of(&self, who: AccountId) -> (r: u128) {
        TrustPallet::trust_score_of(self, who)
    }
}

/// Whether the KYC status stored at position `j` of `keys` is `Approved`.
pub open spec fn approved_at(keys: Seq<u64>, m: Map<u64, KycLevel>, j: int) -> bool {
    m[keys[j]] == KycLevel::Approved
}

/// The number of approved accounts among positions `lo .. hi` of `keys`.
pub open spec fn approved_count(keys: Seq<u64>, m: Map<u64, KycLevel>, lo: int, hi: int) -> nat
    decreases hi - lo,
{
    if hi <= lo {
        0
    } else {
        approved_count(keys, m, lo, hi - 1) + if approved_at(keys, m, hi - 1) {
            1nat
        } else {
            0nat
        }
    }
}

/// The batch size of an update of all trust scores, from the number of approved accounts:
/// all of them up to 100, then 100 up to 1000, 200 up to 10000, and 500 beyond.
pub open spec fn batch_size_for(approved: u32) -> u32 {
    if approved <= 100 {
        approved
    } else if approved <= 1000 {
        100
    } else if approved <= 10000 {
        200
    } else {
        500
    }
}

/// The position from which a batch update walks the KYC statuses: the start, or the
/// position of the account at which the previous batch stopped, which that batch did not
/// update (the end, when that account is gone).
pub open spec fn batch_begin(keys: Seq<u64>, last: Option<AccountId>) -> int {
    match last {
        None => 0,
        Some(a) => if keys.contains(a) {
            choose|p: int| 0 <= p < keys.len() && keys[p] == a
        } else {
            keys.len() as int
        },
    }
}

/// The position at which a batch update that is at position `j`, having updated `count`
/// accounts, stops: the first position reached once `batch` accounts are updated, or the
/// end of the statuses.
pub open spec fn batch_end(keys: Seq<u64>, m: Map<u64, KycLevel>, j: int, count: nat, batch: nat) -> int
    decreases keys.len() - j,
{
    if j >= keys.len() {
        keys.len() as int
    } else if count >= batch {
        j
    } else {
        batch_end(
            keys,
            m,
            j + 1,
            count + if approved_at(keys, m, j) {
                1nat
            } else {
                0nat
            },
            batch,
        )
    }
}

/// The position at which a batch update that begins at `begin` stops. A run that resumes at
/// the account recorded by the run before it always takes that account; a fresh run checks
/// the limit before its first account. Either goes on until `batch` accounts are updated or
/// the statuses end.
pub open spec fn run_end(keys: Seq<u64>, m: Map<u64, KycLevel>, begin: int, batch: nat, resumed: bool) -> int {
    if begin >= keys.len() {
        keys.len() as int
    } else if resumed {
        batch_end(
            keys,
            m,
            begin + 1,
            if approved_at(keys, m, begin) {
                1nat
            } else {
                0nat
            },
            batch,
        )
    } else {
        batch_end(keys, m, begin, 0, batch)
    }
}

/// The trust score of `a` after the accounts of positions `lo .. hi` that are approved were
/// updated from `src`, starting from the scores of `s`.
pub open spec fn score_after_walk<C: CitizenshipStatusProvider, St: StakingScoreProvider, R: ReferralScoreProvider, P: PerwerdeScoreProvider, Ti: TikiScoreProvider>(
    s: TrustPallet,
    src: TrustSources<C, St, R, P, Ti>,
    keys: Seq<u64>,
    m: Map<u64, KycLevel>,
    lo: int,
    hi: int,
    a: AccountId,
) -> u128 {
    if exists|j: int| lo <= j < hi && keys[j] == a && approved_at(keys, m, j) {
        match src.expected_score(a, s.config.score_multiplier_base) {
            Ok(v) => v,
            Err(_) => s.score_of(a),
        }
    } else {
        s.score_of(a)
    }
}

/// How much the sum of the trust scores of `s` changes when the approved accounts of
/// positions `lo .. hi` of `keys` are updated from `src`, each at most once.
pub open spec fn walk_delta<C: CitizenshipStatusProvider, St: StakingScoreProvider, R: ReferralScoreProvider, P: PerwerdeScoreProvider, Ti: TikiScoreProvider>(
    s: TrustPallet,
    src: TrustSources<C, St, R, P, Ti>,
    keys: Seq<u64>,
    m: Map<u64, KycLevel>,
    lo: int,
    hi: int,
) -> int
    decreases hi - lo,
{
    if hi <= lo {
        0
    } else {
        walk_delta(s, src, keys, m, lo, hi - 1) + if approved_at(keys, m, hi - 1) {
            match src.expected_score(keys[hi - 1], s.config.score_multiplier_base) {
                Ok(v) => v - s.score_of(keys[hi - 1]),
                Err(_) => 0,
            }
        } else {
            0
        }
    }
}

impl TrustPallet {
    /// `calculate_optimal_batch_size`: the batch size for the current number of
    /// KYC-approved accounts.
    pub fn calculate_optimal_batch_size(kyc: &IdentityKyc) -> (r: u32)
        ensures
            r == batch_size_for(
                approved_count(kyc.kyc_statuses.key_seq(), kyc.kyc_statuses@, 0, kyc.kyc_statuses.key_seq().len() as int) as u32,
            ),
    {
        let n = kyc.kyc_statuses.len();
        let ghost keys = kyc.kyc_statuses.key_seq();
        let ghost m = kyc.kyc_statuses@;
        let mut count: usize = 0;
        let mut i: usize = 0;
        while i < n
            invariant
                i <= n,
                n == keys.len(),
                keys == kyc.kyc_statuses.key_seq(),
                m == kyc.kyc_statuses@,
                count == approved_count(keys, m, 0, i as int),
                count <= i,
            decreases n - i,
        {
            let level = *kyc.kyc_statuses.value_at(i);
            if level == KycLevel::Approved {
                count = count + 1;
            }
            i += 1;
        }
        let total_users = count as u32;
        if total_users <= 100 {
            total_users
        } else if total_users <= 1000 {
            100
        } else if total_users <= 10000 {
            200
        } else {
            500
        }
    }

    /// `update_all_trust_scores`: the root origin recomputes, in KYC-status order, the trust
    /// scores of up to a batch of approved accounts, resuming at the account at which the
    /// previous batch stopped. When the walk reaches the end, the batch state is cleared and
    /// `AllTrustScoresUpdated` deposited; otherwise the account at which it stopped is
    /// recorded and `BulkTrustScoreUpdate` deposited.
    pub fn update_all_trust_scores<C: CitizenshipStatusProvider, St: StakingScoreProvider, R: ReferralScoreProvider, P: PerwerdeScoreProvider, Ti: TikiScoreProvider>(
        &mut self,
        origin: Origin,
        src: &TrustSources<C, St, R, P, Ti>,
        kyc: &IdentityKyc,
    ) -> (r: Result<(), TrustError>)
        ensures
            origin != Origin::Root ==> r == Err::<(), TrustError>(TrustError::BadOrigin) && *final(self) == *old(self),
            origin == Origin::Root ==> {
                let keys = kyc.kyc_statuses.key_seq();
                let m = kyc.kyc_statuses@;
                let batch = batch_size_for(approved_count(keys, m, 0, keys.len() as int) as u32);
                let begin = batch_begin(keys, old(self).last_processed);
                let end = run_end(keys, m, begin, batch as nat, old(self).last_processed is Some);
                let count = approved_count(keys, m, begin, end);
                &&& r is Ok
                &&& final(self).config == old(self).config
                &&& forall|a: AccountId| #[trigger] final(self).score_of(a) == score_after_walk(
                    *old(self),
                    *src,
                    keys,
                    m,
                    begin,
                    end,
                    a,
                )
                &&& end < keys.len() ==> final(self).last_processed == Some(keys[end]) && final(self).batch_in_progress
                    && final(self).events@.last() == TrustEvent::BulkTrustScoreUpdate { count: count as u32 }
                &&& end >= keys.len() ==> final(self).last_processed is None && !final(self).batch_in_progress
                    && final(self).events@.last() == TrustEvent::AllTrustScoresUpdated { total_updated: count as u32 }
                &&& old(self).events@.is_prefix_of(final(self).events@)
                &&& final(self).scores_sum() == old(self).scores_sum() + walk_delta(*old(self), *src, keys, m, begin, end)
                &&& old(self).total_active == old(self).scores_sum() && (forall|q: int|
                    begin <= q <= end ==> old(self).scores_sum() + #[trigger] walk_delta(*old(self), *src, keys, m, begin, q)
                        <= u128::MAX) ==> final(self).total_active == final(self).scores_sum()
            },
    {
        if origin != Origin::Root {
            return Err(TrustError::BadOrigin);
        }
        let batch_size = Self::calculate_optimal_batch_size(kyc);
        let n = kyc.kyc_statuses.len();
        let ghost keys = kyc.kyc_statuses.key_seq();
        let ghost m = kyc.kyc_statuses@;
        let ghost begin = batch_begin(keys, self.last_processed);
        let ghost end = run_end(keys, m, begin, batch_size as nat, self.last_processed is Some);
        let ghost old_self = *self;
        let start_key = self.last_processed;
        let mut found_start = start_key.is_none();
        let mut updated_count: u32 = 0;
        let mut all_processed = true;
        let mut stop_at: Option<AccountId> = None;
        proof {
            if let Some(a) = start_key {
                if keys.contains(a) {
                    let p = choose|p: int| 0 <= p < keys.len() && keys[p] == a;
                    assert(begin == p);
                }
            }
        }
        let mut taken = false;
        let mut j: usize = 0;
        while j < n
            invariant_except_break
                j <= n,
                n == keys.len(),
                keys == kyc.kyc_statuses.key_seq(),
                m == kyc.kyc_statuses@,
                keys.no_duplicates(),
                forall|k: u64| #[trigger] m.contains_key(k) <==> keys.contains(k),
                0 <= begin <= keys.len(),
                start_key == old_self.last_processed,
                begin == batch_begin(keys, start_key),
                end == run_end(keys, m, begin, batch_size as nat, start_key is Some),
                found_start ==> begin <= j,
                !found_start ==> start_key is Some && j <= begin && forall|q: int| 0 <= q < j ==> keys[q] != start_key->0,
                found_start ==> updated_count == approved_count(keys, m, begin, j as int),
                found_start && taken ==> begin < j && end == batch_end(keys, m, j as int, updated_count as nat, batch_size as nat),
                found_start && !taken ==> j == begin && (start_key is None ==> end == batch_end(keys, m, j as int, 0, batch_size as nat)),
                !found_start ==> !taken,
                !found_start ==> updated_count == 0,
                updated_count <= batch_size + 1,
                batch_size <= 500,
                all_processed,
                self.config == old_self.config,
                self.last_processed == old_self.last_processed,
                self.batch_in_progress == old_self.batch_in_progress,
                old_self.events@.is_prefix_of(self.events@),
                forall|a: AccountId| #[trigger] self.score_of(a) == score_after_walk(
                    old_self,
                    *src,
                    keys,
                    m,
                    begin,
                    if found_start { j as int } else { begin },
                    a,
                ),
                self.scores_sum() == old_self.scores_sum() + walk_delta(
                    old_self,
                    *src,
                    keys,
                    m,
                    begin,
                    if found_start { j as int } else { begin },
                ),
                old_self.total_active == old_self.scores_sum() && (forall|q: int|
                    begin <= q <= (if found_start { j as int } else { begin }) ==> old_self.scores_sum()
                        + #[trigger] walk_delta(old_self, *src, keys, m, begin, q) <= u128::MAX)
                    ==> self.total_active == self.scores_sum(),
            ensures
                !all_processed ==> end < keys.len() && stop_at == Some(keys[end]),
                all_processed ==> end >= keys.len(),
                updated_count == approved_count(keys, m, begin, end),
                self.config == old_self.config,
                self.last_processed == old_self.last_processed,
                self.batch_in_progress == old_self.batch_in_progress,
                old_self.events@.is_prefix_of(self.events@),
                forall|a: AccountId| #[trigger] self.score_of(a) == score_after_walk(
                    old_self,
                    *src,
                    keys,
                    m,
                    begin,
                    end,
                    a,
                ),
                self.scores_sum() == old_self.scores_sum() + walk_delta(old_self, *src, keys, m, begin, end),
                old_self.total_active == old_self.scores_sum() && (forall|q: int|
                    begin <= q <= end ==> old_self.scores_sum() + #[trigger] walk_delta(old_self, *src, keys, m, begin, q)
                        <= u128::MAX) ==> self.total_active == self.scores_sum(),
            decreases n - j,
        {
            let account = kyc.kyc_statuses.key_at(j);
            let level = *kyc.kyc_statuses.value_at(j);
            proof {
                assert(account == keys[j as int]);
            }
            if !found_start {
                if Some(account) == start_key {
                    found_start = true;
                    proof {
                        let p = choose|p: int| 0 <= p < keys.len() && keys[p] == account;
                        assert(keys[p] == keys[j as int]);
                        assert(p == j);
                        assert(begin == j);
                    }
                } else {
                    proof {
                        let a = start_key->0;
                        if keys.contains(a) {
                            let p = choose|p: int| 0 <= p < keys.len() && keys[p] == a;
                            assert(p != j);
                            assert(p >= j);
                        }
                    }
                    j += 1;
                    continue;
                }
            }
            if (taken || start_key.is_none()) && updated_count >= batch_size {
                stop_at = Some(account);
                all_processed = false;
                break;
            }
            let ghost before = *self;
            if level == KycLevel::Approved {
                let _ = self.update_score_for_account(src, account);
                updated_count += 1;
            }
            proof {
                assert(approved_count(keys, m, begin, j + 1) == approved_count(keys, m, begin, j as int) + if approved_at(
                    keys,
                    m,
                    j as int,
                ) {
                    1nat
                } else {
                    0nat
                });
                if !taken {
                    assert(approved_count(keys, m, begin, begin) == 0);
                }
            }
            taken = true;
            proof {
                let jj = j as int;
                if old_self.total_active == old_self.scores_sum() && (forall|q: int|
                    begin <= q <= jj + 1 ==> old_self.scores_sum() + #[trigger] walk_delta(old_self, *src, keys, m, begin, q)
                        <= u128::MAX) {
                    assert forall|q: int| begin <= q <= jj implies old_self.scores_sum() + #[trigger] walk_delta(
                        old_self,
                        *src,
                        keys,
                        m,
                        begin,
                        q,
                    ) <= u128::MAX by {}
                    assert(before.total_active == before.scores_sum());
                    assert(old_self.scores_sum() + walk_delta(old_self, *src, keys, m, begin, jj + 1) <= u128::MAX);
                }
            }
            proof {
                assert forall|a: AccountId| #[trigger] self.score_of(a) == score_after_walk(
                    old_self,
                    *src,
                    keys,
                    m,
                    begin,
                    j + 1,
                    a,
                ) by {
                    let w = exists|q: int| begin <= q < j && keys[q] == a && approved_at(keys, m, q);
                    let w1 = exists|q: int| begin <= q < j + 1 && keys[q] == a && approved_at(keys, m, q);
                    if a == account {
                        assert(!w) by {
                            if w {
                                let q = choose|q: int| begin <= q < j && keys[q] == a && approved_at(keys, m, q);
                                assert(keys[q] == keys[j as int]);
                            }
                        }
                        if level == KycLevel::Approved {
                            assert(approved_at(keys, m, j as int));
                            assert(w1);
                        } else {
                            assert(!w1) by {
                                if w1 {
                                    let q = choose|q: int| begin <= q < j + 1 && keys[q] == a && approved_at(keys, m, q);
                                    assert(q != j);
                                }
                            }
                        }
                    } else {
                        assert(w == w1) by {
                            if w1 {
                                let q = choose|q: int| begin <= q < j + 1 && keys[q] == a && approved_at(keys, m, q);
                                assert(q != j);
                            }
                        }
                        assert(self.score_of(a) == before.score_of(a));
                    }
                }
            }
            j += 1;
        }
        let ghost after_walk = *self;
        if all_processed {
            self.last_processed = None;
            self.batch_in_progress = false;
            self.events.push(TrustEvent::AllTrustScoresUpdated { total_updated: updated_count });
        } else {
            self.last_processed = stop_at;
            self.batch_in_progress = true;
            self.events.push(TrustEvent::BulkTrustScoreUpdate { count: updated_count });
        }
        proof {
            let ev = self.events@;
            assert(ev.drop_last().len() == ev.len() - 1);
            assert forall|i: int| 0 <= i < old_self.events@.len() implies #[trigger] ev[i] == old_self.events@[i] by {
                assert(ev[i] == ev.drop_last()[i]);
            }
            assert(old_self.events@.is_prefix_of(ev));
            assert forall|a: AccountId| #[trigger] self.score_of(a) == score_after_walk(
                old_self,
                *src,
                keys,
                m,
                begin,
                end,
                a,
            ) by {
                assert(self.score_of(a) == after_walk.score_of(a));
            }
        }
        Ok(())
    }
}

impl TrustPallet {
    /// `periodic_trust_score_update`: the root origin runs an update of all trust scores,
    /// unless a batch update is unfinished, and schedules the next one `update_interval`
    /// blocks after `now`.
    pub fn periodic_trust_score_update<C: CitizenshipStatusProvider, St: StakingScoreProvider, R: ReferralScoreProvider, P: PerwerdeScoreProvider, Ti: TikiScoreProvider>(
        &mut self,
        origin: Origin,
        src: &TrustSources<C, St, R, P, Ti>,
        kyc: &IdentityKyc,
        now: BlockNumber,
    ) -> (r: Result<(), TrustError>)
        requires
            origin == Origin::Root && !old(self).batch_in_progress ==> now + old(self).config.update_interval
                <= BlockNumber::MAX,
        ensures
            origin != Origin::Root ==> r == Err::<(), TrustError>(TrustError::BadOrigin),
            origin == Origin::Root && old(self).batch_in_progress ==> r == Err::<(), TrustError>(
                TrustError::UpdateInProgress,
            ),
            r is Err ==> *final(self) == *old(self),
            origin == Origin::Root && !old(self).batch_in_progress ==> {
                let keys = kyc.kyc_statuses.key_seq();
                let m = kyc.kyc_statuses@;
                let batch = batch_size_for(approved_count(keys, m, 0, keys.len() as int) as u32);
                let begin = batch_begin(keys, old(self).last_processed);
                let end = run_end(keys, m, begin, batch as nat, old(self).last_processed is Some);
                let count = approved_count(keys, m, begin, end);
                &&& r is Ok
                &&& forall|a: AccountId| #[trigger] final(self).score_of(a) == score_after_walk(
                    *old(self),
                    *src,
                    keys,
                    m,
                    begin,
                    end,
                    a,
                )
                &&& final(self).batch_in_progress == (end < keys.len())
                &&& final(self).config == old(self).config
                &&& end < keys.len() ==> final(self).last_processed == Some(keys[end])
                    && final(self).events@.drop_last().last() == TrustEvent::BulkTrustScoreUpdate { count: count as u32 }
                &&& end >= keys.len() ==> final(self).last_processed is None
                    && final(self).events@.drop_last().last() == TrustEvent::AllTrustScoresUpdated {
                    total_updated: count as u32,
                }
                &&& old(self).events@.is_prefix_of(final(self).events@.drop_last())
                &&& final(self).events@.last() == TrustEvent::PeriodicUpdateScheduled {
                    next_block: (now + old(self).config.update_interval) as BlockNumber,
                }
                &&& final(self).scores_sum() == old(self).scores_sum() + walk_delta(*old(self), *src, keys, m, begin, end)
                &&& old(self).total_active == old(self).scores_sum() && (forall|q: int|
                    begin <= q <= end ==> old(self).scores_sum() + #[trigger] walk_delta(*old(self), *src, keys, m, begin, q)
                        <= u128::MAX) ==> final(self).total_active == final(self).scores_sum()
            },
    {
        if origin != Origin::Root {
            return Err(TrustError::BadOrigin);
        }
        if self.batch_in_progress {
            return Err(TrustError::UpdateInProgress);
        }
        let _ = self.update_all_trust_scores(Origin::Root, src, kyc);
        let ghost after_update = *self;
        let next_update_block = now + self.config.update_interval;
        self.events.push(TrustEvent::PeriodicUpdateScheduled { next_block: next_update_block });
        proof {
            assert forall|a: AccountId| #[trigger] self.score_of(a) == after_update.score_of(a) by {}
            assert(self.events@.drop_last() =~= after_update.events@);
        }
        Ok(())
    }
}

/// Recomputation of a trust score when one of its components changed.
pub trait TrustScoreUpdater {
    /// Recomputes the trust score of `who` from `src`; a failure leaves it as it was.
    fn on_score_component_changed<C: CitizenshipStatusProvider, St: StakingScoreProvider, R: ReferralScoreProvider, P: PerwerdeScoreProvider, Ti: TikiScoreProvider>(
        &mut self,
        src: &TrustSources<C, St, R, P, Ti>,
        who: AccountId,
    );
}

impl TrustScoreUpdater for TrustPallet {
    fn on_score_component_changed<C: CitizenshipStatusProvider, St: StakingScoreProvider, R: ReferralScoreProvider, P: PerwerdeScoreProvider, Ti: TikiScoreProvider>(
        &mut self,
        src: &TrustSources<C, St, R, P, Ti>,
        who: AccountId,
    )
        ensures
            src.expected_score(who, old(self).config.score_multiplier_base) is Err ==> *final(self) == *old(self),
            src.expected_score(who, old(self).config.score_multiplier_base) matches Ok(new) ==> score_stored(
                *old(self),
                *final(self),
                who,
                new,
            ),
            old(self).total_active == old(self).scores_sum() && final(self).scores_sum() <= u128::MAX
                ==> final(self).total_active == final(self).scores_sum(),
    {
        let _ = self.update_score_for_account(src, who);
    }
}

proof fn lemma_batch_end_at_least(keys: Seq<u64>, m: Map<u64, KycLevel>, j: int, count: nat, batch: nat)
    requires
        j <= keys.len(),
    ensures
        j <= batch_end(keys, m, j, count, batch) <= keys.len(),
    decreases keys.len() - j,
{
    if j < keys.len() && count < batch {
        lemma_batch_end_at_least(
            keys,
            m,
            j + 1,
            count + if approved_at(keys, m, j) {
                1nat
            } else {
                0nat
            },
            batch,
        );
    }
}

/// Batch updates walk the KYC statuses without gaps: a run that begins inside the statuses
/// stops no earlier than where it began, and strictly later when it resumes at a recorded
/// account or its batch size is not zero; when it stops before the end, the next run begins
/// at the account where it stopped.
pub proof fn lemma_batches_cover_all(keys: Seq<u64>, m: Map<u64, KycLevel>, begin: int, batch: nat, resumed: bool)
    requires
        keys.no_duplicates(),
        0 <= begin < keys.len(),
    ensures
        begin <= run_end(keys, m, begin, batch, resumed) <= keys.len(),
        resumed || batch > 0 ==> begin < run_end(keys, m, begin, batch, resumed),
        run_end(keys, m, begin, batch, resumed) < keys.len() ==> batch_begin(
            keys,
            Some(keys[run_end(keys, m, begin, batch, resumed)]),
        ) == run_end(keys, m, begin, batch, resumed),
{
    if resumed {
        lemma_batch_end_at_least(
            keys,
            m,
            begin + 1,
            if approved_at(keys, m, begin) {
                1nat
            } else {
                0nat
            },
            batch,
        );
    } else if batch > 0 {
        lemma_batch_end_at_least(
            keys,
            m,
            begin + 1,
            if approved_at(keys, m, begin) {
                1nat
            } else {
                0nat
            },
            batch,
        );
    }
    let end = run_end(keys, m, begin, batch, resumed);
    if end < keys.len() {
        let a = keys[end];
        assert(keys.contains(a));
        let p = choose|p: int| 0 <= p < keys.len() && keys[p] == a;
        assert(p == end);
    }
}

/// The first run of `ends` begins at the start; each later one where the run before it
/// stopped.
pub open spec fn run_begin(ends: Seq<int>, i: int) -> int {
    if i == 0 {
        0
    } else {
        ends[i - 1]
    }
}

/// Whether `ends` are the positions at which successive batch updates over the KYC statuses
/// `keys` / `m`, with batch size `batch`, stop: the first run starts with no saved account,
/// each later run starts from the account saved by the run before it, and every run but the
/// last stops before the end (so that it saves an account).
pub open spec fn successive_runs(keys: Seq<u64>, m: Map<u64, KycLevel>, batch: nat, ends: Seq<int>) -> bool {
    &&& ends.len() > 0
    &&& ends[0] == run_end(keys, m, batch_begin(keys, None), batch, false)
    &&& forall|i: int|
        1 <= i < ends.len() ==> #[trigger] ends[i] == run_end(keys, m, batch_begin(keys, Some(keys[ends[i - 1]])), batch, true)
    &&& forall|i: int| 0 <= i < ends.len() - 1 ==> 0 <= #[trigger] ends[i] < keys.len()
}

proof fn lemma_resume_position(keys: Seq<u64>, e: int)
    requires
        keys.no_duplicates(),
        0 <= e < keys.len(),
    ensures
        batch_begin(keys, Some(keys[e])) == e,
{
    let a = keys[e];
    assert(keys.contains(a));
    let p = choose|p: int| 0 <= p < keys.len() && keys[p] == a;
    assert(p == e);
}

/// Whether position `j` lies in the range of one of the runs `0 ..= k` of `ends`.
pub open spec fn covered_by_runs(ends: Seq<int>, k: int, j: int) -> bool {
    exists|i: int| 0 <= i <= k && run_begin(ends, i) <= j < #[trigger] ends[i]
}

proof fn lemma_runs_cover_prefix(keys: Seq<u64>, m: Map<u64, KycLevel>, batch: nat, ends: Seq<int>, k: int)
    requires
        keys.no_duplicates(),
        successive_runs(keys, m, batch, ends),
        0 <= k < ends.len(),
    ensures
        forall|j: int| 0 <= j < ends[k] ==> #[trigger] covered_by_runs(ends, k, j),
    decreases k,
{
    if k > 0 {
        lemma_runs_cover_prefix(keys, m, batch, ends, k - 1);
        assert(0 <= ends[k - 1] < keys.len());
        lemma_resume_position(keys, ends[k - 1]);
        assert forall|j: int| 0 <= j < ends[k] implies #[trigger] covered_by_runs(ends, k, j) by {
            if j < ends[k - 1] {
                assert(covered_by_runs(ends, k - 1, j));
                let i = choose|i: int| 0 <= i <= k - 1 && run_begin(ends, i) <= j < #[trigger] ends[i];
                assert(0 <= i <= k && run_begin(ends, i) <= j < ends[i]);
            } else {
                assert(run_begin(ends, k) == ends[k - 1]);
                assert(run_begin(ends, k) <= j < ends[k]);
            }
        }
    } else {
        assert forall|j: int| 0 <= j < ends[k] implies #[trigger] covered_by_runs(ends, k, j) by {
            assert(run_begin(ends, 0) == 0);
            assert(run_begin(ends, 0) <= j < ends[0]);
        }
    }
}

/// Batch updates that start afresh and go on until one of them reaches the end walk every
/// KYC status: each later run begins at the position where the run before it stopped, and
/// every position lies in the range of one of the runs, so every approved account is
/// updated by one of them.
pub proof fn lemma_successive_runs_reach_every_account(keys: Seq<u64>, m: Map<u64, KycLevel>, batch: nat, ends: Seq<int>)
    requires
        keys.no_duplicates(),
        successive_runs(keys, m, batch, ends),
        ends[ends.len() - 1] >= keys.len(),
    ensures
        forall|i: int| 1 <= i < ends.len() ==> #[trigger] batch_begin(keys, Some(keys[ends[i - 1]])) == run_begin(ends, i),
        forall|j: int| 0 <= j < keys.len() ==> #[trigger] covered_by_runs(ends, ends.len() - 1, j),
{
    assert forall|i: int| 1 <= i < ends.len() implies #[trigger] batch_begin(keys, Some(keys[ends[i - 1]])) == run_begin(ends, i) by {
        assert(0 <= ends[i - 1] < keys.len());
        lemma_resume_position(keys, ends[i - 1]);
    }
    lemma_runs_cover_prefix(keys, m, batch, ends, ends.len() - 1);
}

/// The trust score that the sources give: `NotACitizen` for a non-citizen; none without
/// stake; and for a citizen with staking score `s > 0` and a positive base, exactly
/// `s * (100 s + 300 r + 300 p + 300 t) / base`, where `r`, `p` and `t` are the referral,
/// education and tiki scores as their providers give them, none of them capped. A zero base
/// fails with `CalculationOverflow`.
pub proof fn lemma_trust_score_of_components<C: CitizenshipStatusProvider, St: StakingScoreProvider, R: ReferralScoreProvider, P: PerwerdeScoreProvider, Ti: TikiScoreProvider>(
    src: TrustSources<C, St, R, P, Ti>,
    who: AccountId,
    base: u128,
)
    ensures
        ({
            let s = src.staking.staking_score_of(who).0 as int;
            let r = src.referral.referral_score_of(who) as int;
            let p = src.perwerde.perwerde_score_of(who) as int;
            let t = src.tiki.tiki_score_of(who) as int;
            &&& !src.citizenship.citizen(who) ==> src.expected_score(who, base) == Err::<u128, TrustError>(
                TrustError::NotACitizen,
            )
            &&& src.citizenship.citizen(who) && s == 0 ==> src.expected_score(who, base) == Ok::<u128, TrustError>(0)
            &&& src.citizenship.citizen(who) && s > 0 && base == 0 ==> src.expected_score(who, base) == Err::<
                u128,
                TrustError,
            >(TrustError::CalculationOverflow)
            &&& src.citizenship.citizen(who) && s > 0 && base > 0 ==> src.expected_score(who, base) == Ok::<
                u128,
                TrustError,
            >(((s * (100 * s + 300 * r + 300 * p + 300 * t)) / (base as int)) as u128)
        }),
{
}

/// The batch size of an update of all trust scores, for `n` approved accounts: all of them
/// up to 100, then 100 up to 1000, 200 up to 10 000, and 500 beyond.
pub proof fn lemma_batch_size_schedule(n: u32)
    ensures
        n <= 100 ==> batch_size_for(n) == n,
        101 <= n <= 1000 ==> batch_size_for(n) == 100,
        1001 <= n <= 10_000 ==> batch_size_for(n) == 200,
        n > 10_000 ==> batch_size_for(n) == 500,
{
}

/// A trust score never falls when one of its component scores grows.
pub proof fn lemma_trust_formula_monotone(
    s1: u32, r1: u32, p1: u32, t1: u32,
    s2: u32, r2: u32, p2: u32, t2: u32,
    base: u128,
)
    requires
        base > 0,
        s1 <= s2,
        r1 <= r2,
        p1 <= p2,
        t1 <= t2,
    ensures
        trust_formula(s1, r1, p1, t1, base)->Ok_0 <= trust_formula(s2, r2, p2, t2, base)->Ok_0,
{
    if s1 > 0 {
        let w1 = s1 * 100 + r1 * 300 + p1 * 300 + t1 * 300;
        let w2 = s2 * 100 + r2 * 300 + p2 * 300 + t2 * 300;
        assert(s1 * w1 <= s2 * w2) by (nonlinear_arith)
            requires
                0 <= s1 <= s2,
                0 <= w1 <= w2,
        ;
        assert((s1 * w1) / (base as int) <= (s2 * w2) / (base as int)) by (nonlinear_arith)
            requires
                0 <= s1 * w1 <= s2 * w2,
                base > 0,
        ;
        assert(s2 * w2 / (base as int) <= u128::MAX) by (nonlinear_arith)
            requires
                s2 <= 0xffff_ffff,
                w2 <= 0xffff_ffff * 1000,
                base > 0,
        ;
    }
}

/// The genesis configuration of the pallet.
#[derive(Clone, Copy, Debug)]
pub struct GenesisConfig {
    /// Whether periodic updates are meant to start at genesis.
    pub start_periodic_updates: bool,
}

impl Default for GenesisConfig {
    fn default() -> (r: Self)
        ensures
            !r.start_periodic_updates,
    {
        GenesisConfig { start_periodic_updates: false }
    }
}

impl GenesisConfig {
    /// Builds the genesis storage: the first periodic update is left to be scheduled by the
    /// runtime, so no storage is written, whatever the flag.
    pub fn build(&self, pallet: &mut TrustPallet)
        ensures
            *final(pallet) == *old(pallet),
    {
    }
}

/// The weights of the calls of the pallet.
pub trait WeightInfo {
    fn force_recalculate_trust_score(db: RuntimeDbWeight) -> Weight;
}

/// The benchmarked weights of the calls of the trust pallet, with the storage reads and writes
/// priced by the runtime's `db`.
pub struct SubstrateWeight;

impl WeightInfo for SubstrateWeight {
    fn force_recalculate_trust_score(db: RuntimeDbWeight) -> (out: Weight)
        ensures
            out == benchmarked(10_000, 0, db, 0, 1),
    {
        with_db(Weight::from_parts(10_000, 0), db, 0, 1)
    }
}

} // verus!
