//! Hemwelati rewards: the root origin publishes, for each reward period, the root of a trie
//! whose leaves are the hashes of the (account, amount) rewards; an account claims its reward
//! with a proof of its leaf, once per period, while the period is open.
use vstd::prelude::*;
use crate::primitives::{AccountId, Balance, Origin, signer_of, ensure_signed, pallet_account_id, spec_pallet_account, RuntimeDbWeight, Weight, benchmarked, with_db};
use crate::ledger::{Ledger, LedgerError, transfer_outcome};
use crate::scale::{blake2_256, blake2_256_of, encode_account_amount, le_bytes, trie_proof_verifies, verify_trie_proof_v0};
use crate::storage::KeyMap;

verus! {

/// The pallet id from which the account paying the rewards is derived.
pub const PALLET_ID: [u8; 8] = [112u8, 122u8, 47u8, 114u8, 101u8, 119u8, 114u8, 100u8];

/// One reward: an account and the amount it may claim.
#[derive(Clone, Copy, Debug, PartialEq, Eq, Structural)]
pub struct RewardInfo {
    pub account: AccountId,
    pub amount: Balance,
}

/// A reward period: the trie root of its rewards, and whether it is over.
#[derive(Clone, Copy, Debug)]
pub struct RewardPeriod {
    pub root: [u8; 32],
    pub completed: bool,
}

/// Events of the pallet.
#[derive(Clone, Copy, Debug, PartialEq, Eq, Structural)]
pub enum OdulEvent {
    RewardClaimed(AccountId, Balance),
    PeriodCompleted(u32),
    NewPeriodStarted(u32),
}

/// Errors of the pallet.
#[derive(Clone, Copy, Debug, PartialEq, Eq, Structural)]
pub enum OdulError {
    /// The origin may not make this call.
    BadOrigin,
    InvalidProof,
    AlreadyClaimed,
    PeriodNotFound,
    PeriodCompleted,
    /// The payment of the reward was refused.
    Currency(LedgerError),
}

/// The account that pays the rewards.
pub open spec fn odul_account() -> AccountId {
    spec_pallet_account(PALLET_ID@)
}

/// The bytes of the leaf of a reward: the SCALE encoding of `(account, amount)`.
pub open spec fn reward_leaf_data(account: AccountId, amount: Balance) -> Seq<u8> {
    le_bytes(account as nat, 8) + le_bytes(amount as nat, 16)
}

/// The leaf of a reward: the BLAKE2b-256 hash of its encoding.
pub open spec fn reward_leaf(account: AccountId, amount: Balance) -> Seq<u8> {
    blake2_256_of(reward_leaf_data(account, amount))
}

/// `pallet_account`: the account that pays the rewards.
pub fn pallet_account() -> (r: AccountId)
    ensures
        r == odul_account(),
{
    pallet_account_id(PALLET_ID)
}

/// The storage of the hemwelati rewards pallet.
pub struct HemwelatiOdul {
    /// `RewardPeriods`.
    pub periods: KeyMap<RewardPeriod>,
    /// `ClaimedRewards`: per period, the accounts that claimed.
    pub claimed: KeyMap<KeyMap<bool>>,
    /// `NextPeriodId`.
    pub next_period: u32,
    /// Events deposited so far.
    pub events: Vec<OdulEvent>,
}

/// What a claim by `who` in `period_id` of `amount` for `account` answers, given whether
/// the proof verifies.
pub open spec fn claim_outcome(
    s: HemwelatiOdul,
    currency: Ledger,
    who: AccountId,
    period_id: u32,
    account: AccountId,
    amount: Balance,
    proof_valid: bool,
) -> Result<(), OdulError> {
    if s.has_claimed(period_id, who) {
        Err(OdulError::AlreadyClaimed)
    } else if !s.periods@.contains_key(period_id as u64) {
        Err(OdulError::PeriodNotFound)
    } else if s.periods@[period_id as u64].completed {
        Err(OdulError::PeriodCompleted)
    } else if !proof_valid {
        Err(OdulError::InvalidProof)
    } else {
        match transfer_outcome(currency, odul_account(), account, amount, true) {
            Ok(()) => Ok(()),
            Err(e) => Err(OdulError::Currency(e)),
        }
    }
}

/// What a successful claim by `who` in `period_id` of `amount` for `account` makes of the
/// pallet `s` and of the currency `c`: the signer is marked as having claimed in the period,
/// the reward moves from the pallet's account to `account`, and an event is deposited.
pub open spec fn claimed(
    s: HemwelatiOdul,
    c: Ledger,
    s2: HemwelatiOdul,
    c2: Ledger,
    who: AccountId,
    period_id: u32,
    account: AccountId,
    amount: Balance,
) -> bool {
    let acc = odul_account();
    &&& s2.has_claimed(period_id, who)
    &&& forall|p: u32, a: AccountId| (p != period_id || a != who) ==> #[trigger] s2.has_claimed(p, a) == s.has_claimed(p, a)
    &&& s2.periods == s.periods
    &&& s2.next_period == s.next_period
    &&& s2.events@ == s.events@.push(OdulEvent::RewardClaimed(account, amount))
    &&& acc != account && amount > 0 ==> c2.free(account) == c.free(account) + amount && c2.free(acc) == c.free(acc)
        - amount && c2.same_except(&c, set![acc, account])
    &&& acc == account || amount == 0 ==> c2.same_balances(&c)
    &&& c2.issuance() == c.issuance()
}

impl HemwelatiOdul {
    /// Whether `who` claimed in `period_id`.
    pub open spec fn has_claimed(&self, period_id: u32, who: AccountId) -> bool {
        self.claimed@.contains_key(period_id as u64) && self.claimed@[period_id as u64]@.contains_key(who)
            && self.claimed@[period_id as u64]@[who]
    }

    /// A pallet with empty storage.
    pub fn new() -> (s: Self)
        ensures
            s.periods@ == Map::<u64, RewardPeriod>::empty(),
            forall|p: u32, who: AccountId| !#[trigger] s.has_claimed(p, who),
            s.next_period == 0,
            s.events@ == Seq::<OdulEvent>::empty(),
    {
        HemwelatiOdul { periods: KeyMap::new(), claimed: KeyMap::new(), next_period: 0, events: Vec::new() }
    }

    /// `account_id`: the account that pays the rewards.
    pub fn account_id(&self) -> (r: AccountId)
        ensures
            r == odul_account(),
    {
        pallet_account()
    }

    /// `next_period_id`: the id of the next period.
    pub fn next_period_id(&self) -> (r: u32)
        ensures
            r == self.next_period,
    {
        self.next_period
    }

    /// `reward_periods`: period `period_id`, if it was started.
    pub fn reward_periods(&self, period_id: u32) -> (r: Option<RewardPeriod>)
        ensures
            r == (if self.periods@.contains_key(period_id as u64) {
                Some(self.periods@[period_id as u64])
            } else {
                None
            }),
    {
        match self.periods.get(period_id as u64) {
            Some(p) => Some(*p),
            None => None,
        }
    }

    /// `claimed_rewards`: whether `who` claimed in `period_id`.
    pub fn claimed_rewards(&self, period_id: u32, who: AccountId) -> (r: bool)
        ensures
            r == self.has_claimed(period_id, who),
    {
        match self.claimed.get(period_id as u64) {
            Some(m) => match m.get(who) {
                Some(b) => *b,
                None => false,
            },
            None => false,
        }
    }

    /// `start_new_period`: the root origin opens the next period with the trie root `root`.
    pub fn start_new_period(&mut self, origin: Origin, root: [u8; 32]) -> (r: Result<(), OdulError>)
        requires
            origin == Origin::Root ==> old(self).next_period < u32::MAX,
        ensures
            origin != Origin::Root ==> r == Err::<(), OdulError>(OdulError::BadOrigin) && *final(self) == *old(self),
            origin == Origin::Root ==> {
                let id = old(self).next_period;
                &&& r is Ok
                &&& final(self).periods@ == old(self).periods@.insert(id as u64, RewardPeriod { root, completed: false })
                &&& final(self).next_period == id + 1
                &&& final(self).claimed == old(self).claimed
                &&& final(self).events@ == old(self).events@.push(OdulEvent::NewPeriodStarted(id))
            },
    {
        if origin != Origin::Root {
            return Err(OdulError::BadOrigin);
        }
        let period_id = self.next_period;
        self.periods.insert(period_id as u64, RewardPeriod { root, completed: false });
        self.next_period = period_id + 1;
        self.events.push(OdulEvent::NewPeriodStarted(period_id));
        Ok(())
    }

    /// `complete_period`: the root origin closes period `period_id`.
    pub fn complete_period(&mut self, origin: Origin, period_id: u32) -> (r: Result<(), OdulError>)
        ensures
            r is Err ==> *final(self) == *old(self),
            origin != Origin::Root ==> r == Err::<(), OdulError>(OdulError::BadOrigin),
            origin == Origin::Root && !old(self).periods@.contains_key(period_id as u64) ==> r == Err::<(), OdulError>(
                OdulError::PeriodNotFound,
            ),
            origin == Origin::Root && old(self).periods@.contains_key(period_id as u64) ==> {
                &&& r is Ok
                &&& final(self).periods@ == old(self).periods@.insert(
                    period_id as u64,
                    RewardPeriod { root: old(self).periods@[period_id as u64].root, completed: true },
                )
                &&& final(self).next_period == old(self).next_period
                &&& final(self).claimed == old(self).claimed
                &&& final(self).events@ == old(self).events@.push(OdulEvent::PeriodCompleted(period_id))
            },
    {
        if origin != Origin::Root {
            return Err(OdulError::BadOrigin);
        }
        let root = match self.periods.get(period_id as u64) {
            Some(p) => p.root,
            None => return Err(OdulError::PeriodNotFound),
        };
        self.periods.insert(period_id as u64, RewardPeriod { root, completed: true });
        self.events.push(OdulEvent::PeriodCompleted(period_id));
        Ok(())
    }

    /// The claim once the proof was checked: `proof_valid` says whether it verified. Pays
    /// `amount` to `account` from the pallet's account (kept alive) and records that the
    /// signer claimed in the period.
    pub fn claim_reward_checked(
        &mut self,
        origin: Origin,
        currency: &mut Ledger,
        period_id: u32,
        account: AccountId,
        amount: Balance,
        proof_valid: bool,
    ) -> (r: Result<(), OdulError>)
        requires
            old(currency).wf(),
        ensures
            final(currency).wf(),
            signer_of(origin) is None ==> r == Err::<(), OdulError>(OdulError::BadOrigin),
            signer_of(origin) matches Some(who) ==> r == claim_outcome(
                *old(self),
                *old(currency),
                who,
                period_id,
                account,
                amount,
                proof_valid,
            ),
            r is Err ==> *final(self) == *old(self) && *final(currency) == *old(currency),
            r is Ok ==> claimed(
                *old(self),
                *old(currency),
                *final(self),
                *final(currency),
                signer_of(origin)->0,
                period_id,
                account,
                amount,
            ),
    {
        let who = match ensure_signed(origin) {
            Some(w) => w,
            None => return Err(OdulError::BadOrigin),
        };
        if self.claimed_rewards(period_id, who) {
            return Err(OdulError::AlreadyClaimed);
        }
        let completed = match self.periods.get(period_id as u64) {
            Some(p) => p.completed,
            None => return Err(OdulError::PeriodNotFound),
        };
        if completed {
            return Err(OdulError::PeriodCompleted);
        }
        if !proof_valid {
            return Err(OdulError::InvalidProof);
        }
        let acc = self.account_id();
        match currency.transfer(acc, account, amount, true) {
            Ok(()) => {},
            Err(e) => return Err(OdulError::Currency(e)),
        }
        let mut inner = match self.claimed.remove(period_id as u64) {
            Some(m) => m,
            None => KeyMap::new(),
        };
        inner.insert(who, true);
        self.claimed.insert(period_id as u64, inner);
        self.events.push(OdulEvent::RewardClaimed(account, amount));
        proof {
            assert forall|p: u32, a: AccountId| (p != period_id || a != who) implies #[trigger] self.has_claimed(p, a)
                == old(self).has_claimed(p, a) by {
                if p as u64 == period_id as u64 {
                    assert(p == period_id);
                }
            }
        }
        Ok(())
    }

    /// `claim_reward`: a signed account claims, in an open period, the reward `amount` of
    /// `account`, with `proof` that the leaf of `(account, amount)` is in the period's trie;
    /// each signer claims once per period.
    pub fn claim_reward(
        &mut self,
        origin: Origin,
        currency: &mut Ledger,
        period_id: u32,
        account: AccountId,
        amount: Balance,
        proof: Vec<Vec<u8>>,
    ) -> (r: Result<(), OdulError>)
        requires
            old(currency).wf(),
        ensures
            final(currency).wf(),
            signer_of(origin) is None ==> r == Err::<(), OdulError>(OdulError::BadOrigin),
            signer_of(origin) matches Some(who) ==> r == claim_outcome(
                *old(self),
                *old(currency),
                who,
                period_id,
                account,
                amount,
                old(self).periods@.contains_key(period_id as u64) && trie_proof_verifies(
                    old(self).periods@[period_id as u64].root@,
                    proof.deep_view(),
                    reward_leaf(account, amount),
                    reward_leaf(account, amount),
                ),
            ),
            r is Err ==> *final(self) == *old(self) && *final(currency) == *old(currency),
            r is Ok ==> claimed(
                *old(self),
                *old(currency),
                *final(self),
                *final(currency),
                signer_of(origin)->0,
                period_id,
                account,
                amount,
            ),
    {
        let root = match self.periods.get(period_id as u64) {
            Some(p) => p.root,
            None => [0u8; 32],
        };
        let known = self.periods.contains_key(period_id as u64);
        let valid = if known {
            let data = encode_account_amount(account, amount);
            let leaf = blake2_256(data.as_slice());
            verify_trie_proof_v0(&root, &proof, &leaf, &leaf)
        } else {
            false
        };
        self.claim_reward_checked(origin, currency, period_id, account, amount, valid)
    }

    /// `get_account_from_target_event`: no event of the runtime names a reward's account.
    pub fn get_account_from_target_event(&self, event: &OdulEvent) -> (r: Option<AccountId>)
        ensures
            r is None,
    {
        None
    }
}

/// The weights of the calls of the pallet.
pub trait WeightInfo {
    fn claim_reward(db: RuntimeDbWeight) -> Weight;
    fn start_new_period(db: RuntimeDbWeight) -> Weight;
    fn complete_period(db: RuntimeDbWeight) -> Weight;
}

/// The benchmarked weights of the calls of the hemwelati rewards pallet, with the storage reads and writes
/// priced by the runtime's `db`.
pub struct SubstrateWeight;

impl WeightInfo for SubstrateWeight {
    fn claim_reward(db: RuntimeDbWeight) -> (out: Weight)
        ensures
            out == benchmarked(45_000_000, 0, db, 3, 2),
    {
        with_db(Weight::from_parts(45_000_000, 0), db, 3, 2)
    }

    fn start_new_period(db: RuntimeDbWeight) -> (out: Weight)
        ensures
            out == benchmarked(25_000_000, 0, db, 1, 2),
    {
        with_db(Weight::from_parts(25_000_000, 0), db, 1, 2)
    }

    fn complete_period(db: RuntimeDbWeight) -> (out: Weight)
        ensures
            out == benchmarked(20_000_000, 0, db, 1, 1),
    {
        with_db(Weight::from_parts(20_000_000, 0), db, 1, 1)
    }
}

/// A reward is paid only once per period and account, only for a known period that is not
/// completed, and only with a valid proof.
pub proof fn lemma_claim_needs(
    s: HemwelatiOdul,
    currency: Ledger,
    who: AccountId,
    period_id: u32,
    account: AccountId,
    amount: Balance,
    proof_valid: bool,
)
    ensures
        s.has_claimed(period_id, who) ==> claim_outcome(s, currency, who, period_id, account, amount, proof_valid)
            == Err::<(), OdulError>(OdulError::AlreadyClaimed),
        claim_outcome(s, currency, who, period_id, account, amount, proof_valid) is Ok ==> {
            &&& !s.has_claimed(period_id, who)
            &&& s.periods@.contains_key(period_id as u64)
            &&& !s.periods@[period_id as u64].completed
            &&& proof_valid
        },
{
}

} // verus!
