//! The PEZ treasury: the genesis distribution of the supply, and the monthly release of
//! treasury funds to the incentive and government pots, halved every four years.
use vstd::prelude::*;
use crate::primitives::{AccountId, Balance, BlockNumber, Origin, pallet_account_id, spec_pallet_account, RuntimeDbWeight, Weight, benchmarked, with_db};
use crate::ledger::{Ledger, LedgerError, transfer_outcome};
use crate::storage::KeyMap;

verus! {

/// Months in a halving period (four years).
pub const HALVING_PERIOD_MONTHS: u32 = 48;

/// Blocks in a month (thirty days of ten blocks a minute).
pub const BLOCKS_PER_MONTH: u32 = 432_000;

/// Blocks in a halving period.
pub const HALVING_PERIOD_BLOCKS: u32 = 20_736_000;

/// The whole PEZ supply (5 billion PEZ with 12 decimals).
pub const TOTAL_SUPPLY: u128 = 5_000_000_000_000_000_000_000;

/// The treasury's share of the supply (96.25%).
pub const TREASURY_ALLOCATION: u128 = 4_812_500_000_000_000_000_000;

/// The presale's share of the supply (1.875%).
pub const PRESALE_ALLOCATION: u128 = 93_750_000_000_000_000_000;

/// The founder's share of the supply (1.875%).
pub const FOUNDER_ALLOCATION: u128 = 93_750_000_000_000_000_000;

/// The monthly release of the first halving period: half of the treasury allocation spread
/// over the period's months.
pub open spec fn initial_monthly_amount() -> Balance {
    (TREASURY_ALLOCATION / 2 / (HALVING_PERIOD_MONTHS as u128)) as Balance
}

/// The halving state.
#[derive(Clone, Copy, Debug, PartialEq, Eq, Structural)]
pub struct HalvingData {
    pub current_period: u32,
    pub period_start_block: BlockNumber,
    pub monthly_amount: Balance,
    pub total_released: Balance,
}

impl Default for HalvingData {
    fn default() -> (r: Self)
        ensures
            r == (HalvingData { current_period: 0, period_start_block: 0, monthly_amount: 0, total_released: 0 }),
    {
        HalvingData { current_period: 0, period_start_block: 0, monthly_amount: 0, total_released: 0 }
    }
}

/// The record of one monthly release.
#[derive(Clone, Copy, Debug, PartialEq, Eq, Structural)]
pub struct MonthlyRelease {
    pub month_index: u32,
    pub release_block: BlockNumber,
    pub amount_released: Balance,
    pub incentive_amount: Balance,
    pub government_amount: Balance,
}

/// Events of the pallet.
#[derive(Clone, Copy, Debug, PartialEq, Eq, Structural)]
pub enum TreasuryEvent {
    TreasuryInitialized { start_block: BlockNumber, initial_monthly_amount: Balance },
    MonthlyFundsReleased {
        month_index: u32,
        total_amount: Balance,
        incentive_amount: Balance,
        government_amount: Balance,
    },
    NewHalvingPeriod { period: u32, new_monthly_amount: Balance },
    GenesisDistributionCompleted {
        treasury_amount: Balance,
        presale_amount: Balance,
        founder_amount: Balance,
    },
}

/// Errors of the pallet.
#[derive(Clone, Copy, Debug, PartialEq, Eq, Structural)]
pub enum TreasuryError {
    /// The origin may not make this call.
    BadOrigin,
    TreasuryAlreadyInitialized,
    TreasuryNotInitialized,
    MonthlyReleaseAlreadyDone,
    InsufficientTreasuryBalance,
    InvalidHalvingPeriod,
    ReleaseTooEarly,
    /// The asset ledger refused to mint.
    Asset(LedgerError),
}

/// The pallet's constants.
#[derive(Clone, Copy, Debug)]
pub struct TreasuryConfig {
    /// The pallet id of the treasury.
    pub treasury_pallet_id: [u8; 8],
    /// The pallet id of the incentive pot.
    pub incentive_pot_id: [u8; 8],
    /// The pallet id of the government pot.
    pub government_pot_id: [u8; 8],
    /// The account of the presale.
    pub presale_account: AccountId,
    /// The account of the founder.
    pub founder_account: AccountId,
}

/// The account of the treasury.
pub open spec fn treasury_of(c: TreasuryConfig) -> AccountId {
    spec_pallet_account(c.treasury_pallet_id@)
}

/// The account of the incentive pot.
pub open spec fn incentive_pot_of(c: TreasuryConfig) -> AccountId {
    spec_pallet_account(c.incentive_pot_id@)
}

/// The account of the government pot.
pub open spec fn government_pot_of(c: TreasuryConfig) -> AccountId {
    spec_pallet_account(c.government_pot_id@)
}

/// The storage of the treasury pallet.
pub struct PezTreasury {
    pub config: TreasuryConfig,
    /// `HalvingInfo`.
    pub halving: HalvingData,
    /// `MonthlyReleases`: the record of each released month.
    pub releases: KeyMap<MonthlyRelease>,
    /// `NextReleaseMonth`.
    pub next_month: u32,
    /// `TreasuryStartBlock`.
    pub start_block: Option<BlockNumber>,
    /// `GenesisDistributionDone`: the flag that the storage migrations read and check; no
    /// call of the pallet writes it, so it stays unset unless the chain's storage holds it.
    pub genesis_done: bool,
    /// The on-chain storage version.
    pub storage_version: u16,
    /// Events deposited so far.
    pub events: Vec<TreasuryEvent>,
}

impl PezTreasury {
    /// The pallet's invariant: the three pots are distinct accounts, the monthly amount never
    /// exceeds that of the first period, and the halving period fits the month counter.
    pub open spec fn wf(&self) -> bool {
        &&& treasury_of(self.config) != incentive_pot_of(self.config)
        &&& treasury_of(self.config) != government_pot_of(self.config)
        &&& incentive_pot_of(self.config) != government_pot_of(self.config)
        &&& self.halving.monthly_amount <= initial_monthly_amount()
        &&& self.halving.current_period * HALVING_PERIOD_MONTHS <= u32::MAX
    }

    /// A pallet with empty storage at storage version zero.
    pub fn new(config: TreasuryConfig) -> (s: Self)
        requires
            treasury_of(config) != incentive_pot_of(config),
            treasury_of(config) != government_pot_of(config),
            incentive_pot_of(config) != government_pot_of(config),
        ensures
            s.wf(),
            s.config == config,
            s.halving == (HalvingData { current_period: 0, period_start_block: 0, monthly_amount: 0, total_released: 0 }),
            s.releases@ == Map::<u64, MonthlyRelease>::empty(),
            s.next_month == 0,
            s.start_block is None,
            !s.genesis_done,
            s.storage_version == 0,
            s.events@ == Seq::<TreasuryEvent>::empty(),
    {
        PezTreasury {
            config,
            halving: HalvingData::default(),
            releases: KeyMap::new(),
            next_month: 0,
            start_block: None,
            genesis_done: false,
            storage_version: 0,
            events: Vec::new(),
        }
    }

    /// `treasury_account_id`: the account of the treasury.
    pub fn treasury_account_id(&self) -> (r: AccountId)
        ensures
            r == treasury_of(self.config),
    {
        pallet_account_id(self.config.treasury_pallet_id)
    }

    /// `incentive_pot_account_id`: the account of the incentive pot.
    pub fn incentive_pot_account_id(&self) -> (r: AccountId)
        ensures
            r == incentive_pot_of(self.config),
    {
        pallet_account_id(self.config.incentive_pot_id)
    }

    /// `government_pot_account_id`: the account of the government pot.
    pub fn government_pot_account_id(&self) -> (r: AccountId)
        ensures
            r == government_pot_of(self.config),
    {
        pallet_account_id(self.config.government_pot_id)
    }
}

/// Whole months between `start` and `now` (none before `start`); a count beyond `u32`
/// reads as zero.
pub open spec fn months_passed(start: BlockNumber, now: BlockNumber) -> u32 {
    let blocks: int = if now >= start {
        now - start
    } else {
        0
    };
    let q = blocks / (BLOCKS_PER_MONTH as int);
    if q <= u32::MAX {
        q as u32
    } else {
        0
    }
}

/// The halving state in force for a release `months` months after the start, at block
/// `now`: a new period begins, at half the monthly amount, once the current one has run for
/// its 48 months.
pub open spec fn halving_for_release(h: HalvingData, months: u32, now: BlockNumber) -> HalvingData {
    if months - h.current_period * HALVING_PERIOD_MONTHS >= HALVING_PERIOD_MONTHS {
        HalvingData {
            current_period: (h.current_period + 1) as u32,
            period_start_block: now,
            monthly_amount: h.monthly_amount / 2,
            total_released: h.total_released,
        }
    } else {
        h
    }
}

/// The incentive pot's share of a release: 75%, rounded down.
pub open spec fn incentive_share(amount: Balance) -> Balance {
    (amount * 75 / 100) as Balance
}

/// What the two keep-alive transfers of a release answer: `a1` from `t` to `i`, then `a2`
/// from `t` to `g` (three distinct accounts).
pub open spec fn release_transfers_outcome(
    l: Ledger,
    t: AccountId,
    i: AccountId,
    g: AccountId,
    a1: Balance,
    a2: Balance,
) -> Result<(), LedgerError> {
    match transfer_outcome(l, t, i, a1, true) {
        Err(e) => Err(e),
        Ok(()) => if a2 == 0 {
            Ok(())
        } else if l.free(t) - a1 < a2 {
            Err(LedgerError::InsufficientBalance)
        } else if l.total(t) - a1 - a2 < l.min_balance() {
            Err(LedgerError::WouldKillAccount)
        } else if l.total(g) == 0 && a2 < l.min_balance() {
            Err(LedgerError::BelowMinimum)
        } else {
            Ok(())
        },
    }
}

/// What a monthly release at block `now` answers, in the order of the checks.
pub open spec fn release_outcome(s: PezTreasury, assets: Ledger, now: BlockNumber) -> Result<(), TreasuryError> {
    match s.start_block {
        None => Err(TreasuryError::TreasuryNotInitialized),
        Some(start) => if s.releases@.contains_key(s.next_month as u64) {
            Err(TreasuryError::MonthlyReleaseAlreadyDone)
        } else if months_passed(start, now) <= s.next_month {
            Err(TreasuryError::ReleaseTooEarly)
        } else {
            let amount = halving_for_release(s.halving, months_passed(start, now), now).monthly_amount;
            let inc = incentive_share(amount);
            if release_transfers_outcome(
                assets,
                treasury_of(s.config),
                incentive_pot_of(s.config),
                government_pot_of(s.config),
                inc,
                (amount - inc) as Balance,
            ) is Err {
                Err(TreasuryError::InsufficientTreasuryBalance)
            } else {
                Ok(())
            }
        },
    }
}

/// What the genesis distribution answers: the three mints, in order, must each succeed.
pub open spec fn genesis_outcome(l: Ledger, t: AccountId, p: AccountId, f: AccountId) -> Result<(), LedgerError> {
    let total_p = l.total(p) + if p == t {
        TREASURY_ALLOCATION as int
    } else {
        0
    };
    let total_f = l.total(f) + (if f == t {
        TREASURY_ALLOCATION as int
    } else {
        0
    }) + (if f == p {
        PRESALE_ALLOCATION as int
    } else {
        0
    });
    if l.issuance() + TREASURY_ALLOCATION > Balance::MAX {
        Err(LedgerError::Overflow)
    } else if l.total(t) == 0 && TREASURY_ALLOCATION < l.min_balance() {
        Err(LedgerError::BelowMinimum)
    } else if l.issuance() + TREASURY_ALLOCATION + PRESALE_ALLOCATION > Balance::MAX {
        Err(LedgerError::Overflow)
    } else if total_p == 0 && PRESALE_ALLOCATION < l.min_balance() {
        Err(LedgerError::BelowMinimum)
    } else if l.issuance() + TREASURY_ALLOCATION + PRESALE_ALLOCATION + FOUNDER_ALLOCATION
        > Balance::MAX {
        Err(LedgerError::Overflow)
    } else if total_f == 0 && FOUNDER_ALLOCATION < l.min_balance() {
        Err(LedgerError::BelowMinimum)
    } else {
        Ok(())
    }
}

/// What account `a` receives from the genesis distribution.
pub open spec fn genesis_share(a: AccountId, t: AccountId, p: AccountId, f: AccountId) -> int {
    (if a == t {
        TREASURY_ALLOCATION as int
    } else {
        0
    }) + (if a == p {
        PRESALE_ALLOCATION as int
    } else {
        0
    }) + (if a == f {
        FOUNDER_ALLOCATION as int
    } else {
        0
    })
}

impl PezTreasury {
    fn mint_step(
        assets: &mut Ledger,
        saved: &Ledger,
        who: AccountId,
        amount: Balance,
    ) -> (r: Result<(), LedgerError>)
        requires
            old(assets).wf(),
            saved.wf(),
            amount > 0,
        ensures
            final(assets).wf(),
            r is Err ==> final(assets).same_balances(saved),
            r is Ok ==> {
                &&& final(assets).free(who) == old(assets).free(who) + amount
                &&& final(assets).reserved(who) == old(assets).reserved(who)
                &&& final(assets).issuance() == old(assets).issuance() + amount
                &&& final(assets).min_balance() == old(assets).min_balance()
                &&& final(assets).same_except(&*old(assets), set![who])
            },
            r is Err <==> (old(assets).issuance() + amount > Balance::MAX || (old(assets).total(who)
                == 0 && amount < old(assets).min_balance())),
            old(assets).issuance() + amount > Balance::MAX ==> r == Err::<(), LedgerError>(LedgerError::Overflow),
            old(assets).issuance() + amount <= Balance::MAX ==> r is Err ==> r == Err::<(), LedgerError>(LedgerError::BelowMinimum),
    {
        match assets.mint_into(who, amount) {
            Ok(()) => Ok(()),
            Err(e) => {
                *assets = saved.snapshot();
                Err(e)
            },
        }
    }

    /// `do_genesis_distribution`: mints the treasury, presale and founder allocations.
    /// If any mint fails, nothing is minted.
    pub fn do_genesis_distribution(&mut self, assets: &mut Ledger) -> (r: Result<(), TreasuryError>)
        requires
            old(self).wf(),
            old(assets).wf(),
        ensures
            final(self).wf(),
            final(assets).wf(),
            r == (match genesis_outcome(
                *old(assets),
                treasury_of(old(self).config),
                old(self).config.presale_account,
                old(self).config.founder_account,
            ) {
                Ok(()) => Ok::<(), TreasuryError>(()),
                Err(e) => Err(TreasuryError::Asset(e)),
            }),
            r is Err ==> *final(self) == *old(self) && final(assets).same_balances(&*old(assets)),
            r is Ok ==> {
                let t = treasury_of(old(self).config);
                let p = old(self).config.presale_account;
                let f = old(self).config.founder_account;
                &&& forall|a: AccountId| #[trigger] final(assets).free(a) == old(assets).free(a)
                    + genesis_share(a, t, p, f)
                &&& forall|a: AccountId| #[trigger] final(assets).reserved(a) == old(assets).reserved(a)
                &&& final(assets).issuance() == old(assets).issuance() + TOTAL_SUPPLY
                &&& final(assets).min_balance() == old(assets).min_balance()
                &&& final(self).genesis_done == old(self).genesis_done
                &&& final(self).events@ == old(self).events@.push(
                    TreasuryEvent::GenesisDistributionCompleted {
                        treasury_amount: TREASURY_ALLOCATION,
                        presale_amount: PRESALE_ALLOCATION,
                        founder_amount: FOUNDER_ALLOCATION,
                    },
                )
                &&& final(self).halving == old(self).halving
                &&& final(self).releases == old(self).releases
                &&& final(self).next_month == old(self).next_month
                &&& final(self).start_block == old(self).start_block
                &&& final(self).config == old(self).config
                &&& final(self).storage_version == old(self).storage_version
            },
    {
        let t = self.treasury_account_id();
        let p = self.config.presale_account;
        let f = self.config.founder_account;
        let saved = assets.snapshot();
        let ghost l0 = *assets;
        match Self::mint_step(assets, &saved, t, TREASURY_ALLOCATION) {
            Ok(()) => {},
            Err(e) => return Err(TreasuryError::Asset(e)),
        }
        let ghost l1 = *assets;
        match Self::mint_step(assets, &saved, p, PRESALE_ALLOCATION) {
            Ok(()) => {},
            Err(e) => {
                proof {
                    assert(l1.total(p) == l0.total(p) + if p == t { TREASURY_ALLOCATION as int } else { 0 });
                }
                return Err(TreasuryError::Asset(e));
            },
        }
        let ghost l2 = *assets;
        proof {
            assert(l1.total(p) == l0.total(p) + if p == t { TREASURY_ALLOCATION as int } else { 0 });
            assert(l2.total(f) == l0.total(f) + (if f == t { TREASURY_ALLOCATION as int } else { 0 })
                + (if f == p { PRESALE_ALLOCATION as int } else { 0 }));
        }
        match Self::mint_step(assets, &saved, f, FOUNDER_ALLOCATION) {
            Ok(()) => {},
            Err(e) => return Err(TreasuryError::Asset(e)),
        }
        self.events.push(
            TreasuryEvent::GenesisDistributionCompleted {
                treasury_amount: TREASURY_ALLOCATION,
                presale_amount: PRESALE_ALLOCATION,
                founder_amount: FOUNDER_ALLOCATION,
            },
        );
        proof {
            assert forall|a: AccountId| #[trigger] assets.free(a) == l0.free(a) + genesis_share(a, t, p, f) by {
                if a != t {
                    assert(l1.account(a) == l0.account(a));
                }
                if a != p {
                    assert(l2.account(a) == l1.account(a));
                }
                if a != f {
                    assert(assets.account(a) == l2.account(a));
                }
            }
            assert forall|a: AccountId| #[trigger] assets.reserved(a) == l0.reserved(a) by {
                if a != t {
                    assert(l1.account(a) == l0.account(a));
                }
                if a != p {
                    assert(l2.account(a) == l1.account(a));
                }
                if a != f {
                    assert(assets.account(a) == l2.account(a));
                }
            }
        }
        Ok(())
    }
}

impl PezTreasury {
    /// `do_initialize_treasury`: starts the release schedule at block `now`, with the monthly
    /// amount of the first halving period.
    pub fn do_initialize_treasury(&mut self, now: BlockNumber) -> (r: Result<(), TreasuryError>)
        requires
            old(self).wf(),
        ensures
            final(self).wf(),
            old(self).start_block is Some ==> r == Err::<(), TreasuryError>(TreasuryError::TreasuryAlreadyInitialized)
                && *final(self) == *old(self),
            old(self).start_block is None ==> {
                &&& r is Ok
                &&& final(self).start_block == Some(now)
                &&& final(self).halving == (HalvingData {
                    current_period: 0,
                    period_start_block: now,
                    monthly_amount: initial_monthly_amount(),
                    total_released: 0,
                })
                &&& final(self).next_month == 0
                &&& final(self).releases == old(self).releases
                &&& final(self).config == old(self).config
                &&& final(self).genesis_done == old(self).genesis_done
                &&& final(self).storage_version == old(self).storage_version
                &&& final(self).events@ == old(self).events@.push(
                    TreasuryEvent::TreasuryInitialized {
                        start_block: now,
                        initial_monthly_amount: initial_monthly_amount(),
                    },
                )
            },
    {
        if self.start_block.is_some() {
            return Err(TreasuryError::TreasuryAlreadyInitialized);
        }
        let first_period_total = TREASURY_ALLOCATION / 2;
        let monthly_amount = first_period_total / (HALVING_PERIOD_MONTHS as u128);
        self.halving = HalvingData {
            current_period: 0,
            period_start_block: now,
            monthly_amount,
            total_released: 0,
        };
        self.start_block = Some(now);
        self.next_month = 0;
        self.events.push(
            TreasuryEvent::TreasuryInitialized { start_block: now, initial_monthly_amount: monthly_amount },
        );
        Ok(())
    }

    fn months_since(start: BlockNumber, now: BlockNumber) -> (m: u32)
        ensures
            m == months_passed(start, now),
    {
        let blocks: u64 = if now >= start {
            now - start
        } else {
            0
        };
        let q: u64 = blocks / (BLOCKS_PER_MONTH as u64);
        if q <= u32::MAX as u64 {
            q as u32
        } else {
            0
        }
    }

    /// `do_monthly_release`: releases the monthly amount of month `next_month` at block
    /// `now`, once that month has passed: 75% (rounded down) to the incentive pot and the
    /// rest to the government pot, both from the treasury, which is kept alive. A release
    /// that finds the current halving period over starts the next one at half the amount.
    /// If either transfer fails, nothing changes.
    pub fn do_monthly_release(&mut self, assets: &mut Ledger, now: BlockNumber) -> (r: Result<(), TreasuryError>)
        requires
            old(self).wf(),
            old(assets).wf(),
        ensures
            final(self).wf(),
            final(assets).wf(),
            r == release_outcome(*old(self), *old(assets), now),
            r is Err ==> *final(self) == *old(self) && final(assets).same_balances(&*old(assets)),
            r is Ok ==> {
                let start = old(self).start_block->0;
                let months = months_passed(start, now);
                let h = halving_for_release(old(self).halving, months, now);
                let amount = h.monthly_amount;
                let inc = incentive_share(amount);
                let gov = (amount - inc) as Balance;
                let t = treasury_of(old(self).config);
                let i = incentive_pot_of(old(self).config);
                let g = government_pot_of(old(self).config);
                let m = old(self).next_month;
                let released = MonthlyRelease {
                    month_index: m,
                    release_block: now,
                    amount_released: amount,
                    incentive_amount: inc,
                    government_amount: gov,
                };
                let done = TreasuryEvent::MonthlyFundsReleased {
                    month_index: m,
                    total_amount: amount,
                    incentive_amount: inc,
                    government_amount: gov,
                };
                &&& inc + gov == amount
                &&& amount <= initial_monthly_amount()
                &&& final(self).halving == HalvingData {
                    total_released: crate::primitives::saturate_u128(h.total_released + amount),
                    ..h
                }
                &&& final(self).releases@ == old(self).releases@.insert(m as u64, released)
                &&& final(self).next_month == m + 1
                &&& final(self).start_block == old(self).start_block
                &&& final(self).config == old(self).config
                &&& final(self).genesis_done == old(self).genesis_done
                &&& final(self).storage_version == old(self).storage_version
                &&& final(self).events@ == (if h.current_period != old(self).halving.current_period {
                    old(self).events@.push(
                        TreasuryEvent::NewHalvingPeriod {
                            period: h.current_period,
                            new_monthly_amount: amount,
                        },
                    ).push(done)
                } else {
                    old(self).events@.push(done)
                })
                &&& final(assets).free(t) == old(assets).free(t) - amount
                &&& final(assets).free(i) == old(assets).free(i) + inc
                &&& final(assets).free(g) == old(assets).free(g) + gov
                &&& final(assets).reserved(t) == old(assets).reserved(t)
                &&& final(assets).reserved(i) == old(assets).reserved(i)
                &&& final(assets).reserved(g) == old(assets).reserved(g)
                &&& final(assets).same_except(&*old(assets), set![t, i, g])
                &&& final(assets).issuance() == old(assets).issuance()
                &&& final(assets).min_balance() == old(assets).min_balance()
            },
    {
        let start = match self.start_block {
            Some(b) => b,
            None => return Err(TreasuryError::TreasuryNotInitialized),
        };
        let next = self.next_month;
        if self.releases.contains_key(next as u64) {
            return Err(TreasuryError::MonthlyReleaseAlreadyDone);
        }
        let months = Self::months_since(start, now);
        if months <= next {
            return Err(TreasuryError::ReleaseTooEarly);
        }
        let mut h = self.halving;
        let period_start_month = h.current_period * HALVING_PERIOD_MONTHS;
        let months_in_period = if months >= period_start_month {
            months - period_start_month
        } else {
            0
        };
        let halved = months_in_period >= HALVING_PERIOD_MONTHS;
        if halved {
            h = HalvingData {
                current_period: h.current_period + 1,
                period_start_block: now,
                monthly_amount: h.monthly_amount / 2,
                total_released: h.total_released,
            };
        }
        let amount = h.monthly_amount;
        let inc = amount * 75 / 100;
        let gov = amount - inc;
        let t = self.treasury_account_id();
        let i = self.incentive_pot_account_id();
        let g = self.government_pot_account_id();
        let saved = assets.snapshot();
        let ghost l0 = *assets;
        match assets.transfer(t, i, inc, true) {
            Ok(()) => {},
            Err(_) => {
                *assets = saved;
                return Err(TreasuryError::InsufficientTreasuryBalance);
            },
        }
        let ghost l1 = *assets;
        proof {
            assert(l1.account(g) == l0.account(g));
        }
        match assets.transfer(t, g, gov, true) {
            Ok(()) => {},
            Err(_) => {
                *assets = saved;
                return Err(TreasuryError::InsufficientTreasuryBalance);
            },
        }
        h.total_released = h.total_released.saturating_add(amount);
        self.halving = h;
        let release = MonthlyRelease {
            month_index: next,
            release_block: now,
            amount_released: amount,
            incentive_amount: inc,
            government_amount: gov,
        };
        self.releases.insert(next as u64, release);
        self.next_month = next + 1;
        if halved {
            self.events.push(TreasuryEvent::NewHalvingPeriod { period: h.current_period, new_monthly_amount: amount });
        }
        self.events.push(
            TreasuryEvent::MonthlyFundsReleased {
                month_index: next,
                total_amount: amount,
                incentive_amount: inc,
                government_amount: gov,
            },
        );
        proof {
            assert(assets.account(i) == l1.account(i));
            assert(l1.account(g) == l0.account(g));
            assert forall|a: AccountId| !set![t, i, g].contains(a) implies #[trigger] assets.account(a)
                == l0.account(a) by {
                assert(l1.account(a) == l0.account(a));
            }
        }
        Ok(())
    }
}

impl PezTreasury {
    /// `initialize_treasury`: the force origin (root) starts the release schedule.
    pub fn initialize_treasury(&mut self, origin: Origin, now: BlockNumber) -> (r: Result<(), TreasuryError>)
        requires
            old(self).wf(),
        ensures
            final(self).wf(),
            origin != Origin::Root ==> r == Err::<(), TreasuryError>(TreasuryError::BadOrigin),
            r is Err ==> *final(self) == *old(self),
            origin == Origin::Root && old(self).start_block is Some ==> r == Err::<(), TreasuryError>(
                TreasuryError::TreasuryAlreadyInitialized,
            ),
            origin == Origin::Root && old(self).start_block is None ==> r is Ok && final(self).start_block
                == Some(now) && final(self).halving.monthly_amount == initial_monthly_amount()
                && final(self).next_month == 0,
    {
        if origin != Origin::Root {
            return Err(TreasuryError::BadOrigin);
        }
        self.do_initialize_treasury(now)
    }

    /// `release_monthly_funds`: the force origin (root) makes the monthly release.
    pub fn release_monthly_funds(&mut self, origin: Origin, assets: &mut Ledger, now: BlockNumber) -> (r: Result<(), TreasuryError>)
        requires
            old(self).wf(),
            old(assets).wf(),
        ensures
            final(self).wf(),
            final(assets).wf(),
            origin != Origin::Root ==> r == Err::<(), TreasuryError>(TreasuryError::BadOrigin),
            origin == Origin::Root ==> r == release_outcome(*old(self), *old(assets), now),
            r is Err ==> *final(self) == *old(self) && final(assets).same_balances(&*old(assets)),
    {
        if origin != Origin::Root {
            return Err(TreasuryError::BadOrigin);
        }
        self.do_monthly_release(assets, now)
    }

    /// `force_genesis_distribution`: the force origin (root) makes the genesis distribution.
    pub fn force_genesis_distribution(&mut self, origin: Origin, assets: &mut Ledger) -> (r: Result<(), TreasuryError>)
        requires
            old(self).wf(),
            old(assets).wf(),
        ensures
            final(self).wf(),
            final(assets).wf(),
            origin != Origin::Root ==> r == Err::<(), TreasuryError>(TreasuryError::BadOrigin),
            origin == Origin::Root ==> r == (match genesis_outcome(
                *old(assets),
                treasury_of(old(self).config),
                old(self).config.presale_account,
                old(self).config.founder_account,
            ) {
                Ok(()) => Ok::<(), TreasuryError>(()),
                Err(e) => Err(TreasuryError::Asset(e)),
            }),
            r is Err ==> *final(self) == *old(self) && final(assets).same_balances(&*old(assets)),
            r is Ok ==> final(assets).issuance() == old(assets).issuance() + TOTAL_SUPPLY,
    {
        if origin != Origin::Root {
            return Err(TreasuryError::BadOrigin);
        }
        self.do_genesis_distribution(assets)
    }

    /// `get_current_halving_info` / `halving_info`: the halving state.
    pub fn get_current_halving_info(&self) -> (r: HalvingData)
        ensures
            r == self.halving,
    {
        self.halving
    }

    /// `monthly_releases`: the record of month `month`, if it was released.
    pub fn monthly_releases(&self, month: u32) -> (r: Option<MonthlyRelease>)
        ensures
            r == (if self.releases@.contains_key(month as u64) {
                Some(self.releases@[month as u64])
            } else {
                None
            }),
    {
        match self.releases.get(month as u64) {
            Some(m) => Some(*m),
            None => None,
        }
    }

    /// `next_release_month`: the month that the next release is for.
    pub fn next_release_month(&self) -> (r: u32)
        ensures
            r == self.next_month,
    {
        self.next_month
    }

    /// `treasury_start_block`: the block at which the schedule started, if it did.
    pub fn treasury_start_block(&self) -> (r: Option<BlockNumber>)
        ensures
            r == self.start_block,
    {
        self.start_block
    }

    /// `get_incentive_pot_balance`: the PEZ balance of the incentive pot.
    pub fn get_incentive_pot_balance(&self, assets: &Ledger) -> (r: Balance)
        ensures
            r == assets.free(incentive_pot_of(self.config)),
    {
        assets.free_balance(self.incentive_pot_account_id())
    }

    /// `get_government_pot_balance`: the PEZ balance of the government pot.
    pub fn get_government_pot_balance(&self, assets: &Ledger) -> (r: Balance)
        ensures
            r == assets.free(government_pot_of(self.config)),
    {
        assets.free_balance(self.government_pot_account_id())
    }
}

/// The genesis configuration of the pallet.
#[derive(Clone, Copy, Debug)]
pub struct GenesisConfig {
    /// Whether the release schedule starts at genesis.
    pub initialize_treasury: bool,
}

impl Default for GenesisConfig {
    fn default() -> (r: Self)
        ensures
            !r.initialize_treasury,
    {
        GenesisConfig { initialize_treasury: false }
    }
}

impl GenesisConfig {
    /// Builds the genesis storage: starts the release schedule at block `now` when
    /// `initialize_treasury` is set (a failure is ignored).
    pub fn build(&self, pallet: &mut PezTreasury, now: BlockNumber)
        requires
            old(pallet).wf(),
        ensures
            final(pallet).wf(),
            !self.initialize_treasury || old(pallet).start_block is Some ==> *final(pallet) == *old(pallet),
            self.initialize_treasury && old(pallet).start_block is None ==> final(pallet).start_block == Some(now)
                && final(pallet).halving.monthly_amount == initial_monthly_amount(),
    {
        if self.initialize_treasury {
            let _ = pallet.do_initialize_treasury(now);
        }
    }
}

/// The three allocations make up the whole supply, and a first-period month releases
/// 50,130,208,333,333,333,333 units, so that its 48 months release half the treasury
/// allocation, rounded down.
pub proof fn lemma_supply_and_schedule()
    ensures
        TREASURY_ALLOCATION + PRESALE_ALLOCATION + FOUNDER_ALLOCATION == TOTAL_SUPPLY,
        initial_monthly_amount() == 50_130_208_333_333_333_333u128,
        initial_monthly_amount() * HALVING_PERIOD_MONTHS <= TREASURY_ALLOCATION / 2,
        HALVING_PERIOD_BLOCKS == HALVING_PERIOD_MONTHS * BLOCKS_PER_MONTH,
{
}

/// Each month is released at most once: while its record exists, a release for it is
/// refused.
pub proof fn lemma_month_released_once(s: PezTreasury, assets: Ledger, now: BlockNumber)
    requires
        s.start_block is Some,
        s.releases@.contains_key(s.next_month as u64),
    ensures
        release_outcome(s, assets, now) == Err::<(), TreasuryError>(TreasuryError::MonthlyReleaseAlreadyDone),
{
}

/// The terms of the monthly releases: a month is 432 000 blocks and a halving period 48
/// months; the incentive pot takes 75% of a release (rounded down); and a release is due
/// for every whole month since the start.
pub proof fn lemma_release_terms(amount: Balance, start: BlockNumber, now: BlockNumber)
    requires
        amount * 75 <= Balance::MAX,
    ensures
        BLOCKS_PER_MONTH == 432_000,
        HALVING_PERIOD_MONTHS == 48,
        incentive_share(amount) == amount * 75 / 100,
        incentive_share(amount) <= amount,
        start <= now && (now - start) / 432_000 <= u32::MAX ==> months_passed(start, now) == (now - start) / 432_000,
        now < start ==> months_passed(start, now) == 0,
{
}

/// A halving period lasts 48 months: a release within the current period's 48 months keeps
/// the monthly amount, and the first one after them halves it.
pub proof fn lemma_halving_schedule(h: HalvingData, months: u32, now: BlockNumber)
    ensures
        months < (h.current_period + 1) * HALVING_PERIOD_MONTHS ==> halving_for_release(h, months, now) == h,
        months >= (h.current_period + 1) * HALVING_PERIOD_MONTHS ==> {
            &&& halving_for_release(h, months, now).current_period == h.current_period + 1
            &&& halving_for_release(h, months, now).monthly_amount == h.monthly_amount / 2
        },
{
}

/// The weights of the calls of the pallet.
pub trait WeightInfo {
    fn initialize_treasury(db: RuntimeDbWeight) -> Weight;
    fn force_genesis_distribution(db: RuntimeDbWeight) -> Weight;
    fn release_monthly_funds(db: RuntimeDbWeight) -> Weight;
}

/// The benchmarked weights of the calls of the treasury pallet, with the storage reads and writes
/// priced by the runtime's `db`.
pub struct SubstrateWeight;

impl WeightInfo for SubstrateWeight {
    fn initialize_treasury(db: RuntimeDbWeight) -> (out: Weight)
        ensures
            out == benchmarked(9_749_000, 42, db, 1, 3),
    {
        with_db(Weight::from_parts(9_749_000, 0).saturating_add(Weight::from_parts(0, 42)), db, 1, 3)
    }

    fn force_genesis_distribution(db: RuntimeDbWeight) -> (out: Weight)
        ensures
            out == benchmarked(62_700_000, 615, db, 6, 6),
    {
        with_db(Weight::from_parts(62_700_000, 0).saturating_add(Weight::from_parts(0, 615)), db, 6, 6)
    }

    fn release_monthly_funds(db: RuntimeDbWeight) -> (out: Weight)
        ensures
            out == benchmarked(94_980_000, 772, db, 10, 9),
    {
        with_db(Weight::from_parts(94_980_000, 0).saturating_add(Weight::from_parts(0, 772)), db, 10, 9)
    }
}

} // verus!
