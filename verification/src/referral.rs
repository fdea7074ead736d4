//! Referrals: an account invites another; the invitation is confirmed when the invited
//! account's KYC is approved, which raises the inviter's referral count and score.
use vstd::prelude::*;
use crate::primitives::{AccountId, BlockNumber, Origin, signer_of, ensure_signed, RuntimeDbWeight, Weight, benchmarked, with_db};
use crate::identity_kyc::{IdentityKyc, KycLevel, KycStatus, OnKycApproved};
use crate::storage::KeyMap;

verus! {

/// A simple NFT record of the referral pallet.
#[derive(Clone, Copy, Debug, PartialEq, Eq, Structural, Default)]
pub struct Tiki {
    pub id: u32,
}

/// The raw score type of the referral score.
pub type RawScore = u32;

/// A confirmed referral: who invited the account, and in which block it was confirmed.
#[derive(Clone, Copy, Debug, PartialEq, Eq, Structural)]
pub struct ReferralInfo {
    pub referrer: AccountId,
    pub created_at: BlockNumber,
}

/// Events of the pallet.
#[derive(Clone, Copy, Debug, PartialEq, Eq, Structural)]
pub enum ReferralEvent {
    ReferralInitiated { referrer: AccountId, referred: AccountId },
    ReferralConfirmed { referrer: AccountId, referred: AccountId, new_referrer_count: u32 },
}

/// Errors of the pallet.
#[derive(Clone, Copy, Debug, PartialEq, Eq, Structural)]
pub enum ReferralError {
    /// The call was not signed.
    BadOrigin,
    /// An account cannot invite itself.
    SelfReferral,
    /// The account was already invited or referred.
    AlreadyReferred,
}

/// Query of who invited an account.
pub trait InviterProvider {
    /// The inviter of `who`, once the referral is confirmed.
    spec fn inviter_of(&self, who: AccountId) -> Option<AccountId>;

    /// The inviter of `who`, once the referral is confirmed.
    fn get_inviter(&self, who: AccountId) -> (r: Option<AccountId>)
        ensures
            r == self.inviter_of(who),
    ;
}

/// Query of an account's referral score.
pub trait ReferralScoreProvider {
    /// The referral score of `who`.
    spec fn referral_score_of(&self, who: AccountId) -> RawScore;

    /// The referral score of `who`.
    fn get_referral_score(&self, who: AccountId) -> (r: RawScore)
        ensures
            r == self.referral_score_of(who),
    ;
}

/// The referral score earned by `count` confirmed referrals: four points each for the
/// first five, two points each up to twenty, and fifty from twenty-one on.
pub open spec fn score_for_count(count: u32) -> RawScore {
    if count == 0 {
        0
    } else if count <= 5 {
        (count * 4) as u32
    } else if count <= 20 {
        (20 + (count - 5) * 2) as u32
    } else {
        50
    }
}

/// The referral score is capped at 50 and never falls when the count grows.
pub proof fn lemma_score_monotone_and_capped(a: u32, b: u32)
    requires
        a <= b,
    ensures
        score_for_count(a) <= score_for_count(b),
        score_for_count(b) <= 50,
{
}

/// The referral score of an inviter with `c` confirmed referrals: none without referrals,
/// four points each for the first five, then two more for each referral up to twenty
/// (`20 + 2 (c - 5)`), and 50 from twenty on; 50 is reached at twenty referrals and not
/// before.
pub proof fn lemma_referral_score_schedule(r: Referral, who: AccountId)
    ensures
        ({
            let c = r.count_of(who) as int;
            let v = r.referral_score_of(who) as int;
            &&& c == 0 ==> v == 0
            &&& 1 <= c <= 5 ==> v == 4 * c
            &&& 6 <= c <= 20 ==> v == 20 + 2 * (c - 5)
            &&& c >= 20 ==> v == 50
            &&& c < 20 ==> v < 50
        }),
{
}

/// The storage of the referral pallet.
pub struct Referral {
    /// `PendingReferrals`: invited account to inviter, awaiting KYC approval.
    pub pending_referrals: KeyMap<AccountId>,
    /// `ReferralCount`: confirmed referrals per inviter (absent means zero).
    pub referral_count: KeyMap<u32>,
    /// `Referrals`: confirmed referrals per invited account.
    pub referrals: KeyMap<ReferralInfo>,
    /// Events deposited so far.
    pub events: Vec<ReferralEvent>,
}

impl Referral {
    /// The confirmed referral count of `who`.
    pub open spec fn count_of(&self, who: AccountId) -> u32 {
        if self.referral_count@.contains_key(who) {
            self.referral_count@[who]
        } else {
            0
        }
    }

    /// A pallet with empty storage.
    pub fn new() -> (s: Self)
        ensures
            s.pending_referrals@ == Map::<AccountId, AccountId>::empty(),
            s.referral_count@ == Map::<AccountId, u32>::empty(),
            s.referrals@ == Map::<AccountId, ReferralInfo>::empty(),
            s.events@ == Seq::<ReferralEvent>::empty(),
    {
        Referral {
            pending_referrals: KeyMap::new(),
            referral_count: KeyMap::new(),
            referrals: KeyMap::new(),
            events: Vec::new(),
        }
    }

    /// `pending_referrals`: the inviter of `who` while the referral awaits KYC approval.
    pub fn pending_referrals(&self, who: AccountId) -> (r: Option<AccountId>)
        ensures
            r == (if self.pending_referrals@.contains_key(who) {
                Some(self.pending_referrals@[who])
            } else {
                None
            }),
    {
        match self.pending_referrals.get(who) {
            Some(a) => Some(*a),
            None => None,
        }
    }

    /// `referral_count`: the confirmed referral count of `who`.
    pub fn referral_count(&self, who: AccountId) -> (r: u32)
        ensures
            r == self.count_of(who),
    {
        match self.referral_count.get(who) {
            Some(c) => *c,
            None => 0,
        }
    }

    /// `referrals`: the confirmed referral of `who`, if any.
    pub fn referrals(&self, who: AccountId) -> (r: Option<ReferralInfo>)
        ensures
            r == (if self.referrals@.contains_key(who) {
                Some(self.referrals@[who])
            } else {
                None
            }),
    {
        match self.referrals.get(who) {
            Some(i) => Some(*i),
            None => None,
        }
    }

    /// `initiate_referral`: the signer invites `referred`, which must be another account
    /// that is neither referred nor invited yet.
    pub fn initiate_referral(&mut self, origin: Origin, referred: AccountId) -> (r: Result<
        (),
        ReferralError,
    >)
        ensures
            r is Err ==> *final(self) == *old(self),
            signer_of(origin) is None ==> r == Err::<(), ReferralError>(ReferralError::BadOrigin),
            signer_of(origin) matches Some(referrer) ==> {
                if referrer == referred {
                    r == Err::<(), ReferralError>(ReferralError::SelfReferral)
                } else if old(self).referrals@.contains_key(referred) || old(
                    self,
                ).pending_referrals@.contains_key(referred) {
                    r == Err::<(), ReferralError>(ReferralError::AlreadyReferred)
                } else {
                    &&& r is Ok
                    &&& final(self).pending_referrals@ == old(self).pending_referrals@.insert(
                        referred,
                        referrer,
                    )
                    &&& final(self).referral_count == old(self).referral_count
                    &&& final(self).referrals == old(self).referrals
                    &&& final(self).events@ == old(self).events@.push(
                        ReferralEvent::ReferralInitiated { referrer, referred },
                    )
                }
            },
    {
        let referrer = match ensure_signed(origin) {
            Some(w) => w,
            None => return Err(ReferralError::BadOrigin),
        };
        if referrer == referred {
            return Err(ReferralError::SelfReferral);
        }
        if self.referrals.contains_key(referred) || self.pending_referrals.contains_key(referred) {
            return Err(ReferralError::AlreadyReferred);
        }
        self.pending_referrals.insert(referred, referrer);
        self.events.push(ReferralEvent::ReferralInitiated { referrer, referred });
        Ok(())
    }

    /// The KYC-approval hook: when `who` is approved in `kyc` and has a pending referral,
    /// the referral is confirmed at block `now` and the inviter's count rises by one
    /// (saturating); otherwise nothing changes.
    pub fn confirm_referral<K: KycStatus>(&mut self, kyc: &K, who: AccountId, now: BlockNumber)
        ensures
            kyc.kyc_level_of(who) == KycLevel::Approved && old(self).pending_referrals@.contains_key(
                who,
            ) ==> {
                let referrer = old(self).pending_referrals@[who];
                let new_count = if old(self).count_of(referrer) < u32::MAX {
                    (old(self).count_of(referrer) + 1) as u32
                } else {
                    u32::MAX
                };
                &&& final(self).pending_referrals@ == old(self).pending_referrals@.remove(who)
                &&& final(self).referral_count@ == old(self).referral_count@.insert(
                    referrer,
                    new_count,
                )
                &&& final(self).referrals@ == old(self).referrals@.insert(
                    who,
                    ReferralInfo { referrer, created_at: now },
                )
                &&& final(self).events@ == old(self).events@.push(
                    ReferralEvent::ReferralConfirmed { referrer, referred: who, new_referrer_count: new_count },
                )
            },
            !(kyc.kyc_level_of(who) == KycLevel::Approved && old(
                self,
            ).pending_referrals@.contains_key(who)) ==> *final(self) == *old(self),
    {
        if kyc.get_kyc_status(who) != KycLevel::Approved {
            return;
        }
        let referrer = match self.pending_referrals.remove(who) {
            Some(r) => r,
            None => return,
        };
        let count = self.referral_count(referrer);
        let new_count = count.saturating_add(1);
        self.referral_count.insert(referrer, new_count);
        self.referrals.insert(who, ReferralInfo { referrer, created_at: now });
        self.events.push(
            ReferralEvent::ReferralConfirmed { referrer, referred: who, new_referrer_count: new_count },
        );
    }
}

impl OnKycApproved for Referral {
    /// A pending referral of an approved account is confirmed: it leaves the pending ones,
    /// is recorded with block `now`, and the referrer's count grows by one (saturating);
    /// otherwise nothing changes.
    open spec fn approval_effect(&self, after: Self, kyc: IdentityKyc, who: AccountId, now: BlockNumber) -> bool {
        if kyc.status_of(who) == KycLevel::Approved && self.pending_referrals@.contains_key(who) {
            let referrer = self.pending_referrals@[who];
            let new_count = if self.count_of(referrer) < u32::MAX {
                (self.count_of(referrer) + 1) as u32
            } else {
                u32::MAX
            };
            &&& after.pending_referrals@ == self.pending_referrals@.remove(who)
            &&& after.referral_count@ == self.referral_count@.insert(referrer, new_count)
            &&& after.referrals@ == self.referrals@.insert(who, ReferralInfo { referrer, created_at: now })
            &&& after.events@ == self.events@.push(
                ReferralEvent::ReferralConfirmed { referrer, referred: who, new_referrer_count: new_count },
            )
        } else {
            after == *self
        }
    }

    fn on_kyc_approved(&mut self, kyc: &IdentityKyc, who: AccountId, now: BlockNumber) {
        self.confirm_referral(kyc, who, now);
    }
}

impl InviterProvider for Referral {
    open spec fn inviter_of(&self, who: AccountId) -> Option<AccountId> {
        if self.referrals@.contains_key(who) {
            Some(self.referrals@[who].referrer)
        } else {
            None
        }
    }

    fn get_inviter(&self, who: AccountId) -> (r: Option<AccountId>) {
        match self.referrals.get(who) {
            Some(info) => Some(info.referrer),
            None => None,
        }
    }
}

impl ReferralScoreProvider for Referral {
    open spec fn referral_score_of(&self, who: AccountId) -> RawScore {
        score_for_count(self.count_of(who))
    }

    fn get_referral_score(&self, who: AccountId) -> (r: RawScore) {
        let count = self.referral_count(who);
        if count == 0 {
            0
        } else if count <= 5 {
            count * 4
        } else if count <= 20 {
            20 + (count - 5) * 2
        } else {
            50
        }
    }
}

/// The weights of the calls of the pallet.
pub trait WeightInfo {
    fn initiate_referral(db: RuntimeDbWeight) -> Weight;
    fn hook_on_kyc_approved_found(db: RuntimeDbWeight) -> Weight;
    fn hook_on_kyc_approved_not_found(db: RuntimeDbWeight) -> Weight;
}

/// The benchmarked weights of the calls of the referral pallet, with the storage reads and writes
/// priced by the runtime's `db`.
pub struct SubstrateWeight;

impl WeightInfo for SubstrateWeight {
    fn initiate_referral(db: RuntimeDbWeight) -> (out: Weight)
        ensures
            out == benchmarked(20_000_000, 0, db, 2, 1),
    {
        with_db(Weight::from_parts(20_000_000, 0), db, 2, 1)
    }

    fn hook_on_kyc_approved_found(db: RuntimeDbWeight) -> (out: Weight)
        ensures
            out == benchmarked(50_000_000, 0, db, 1, 2),
    {
        with_db(Weight::from_parts(50_000_000, 0), db, 1, 2)
    }

    fn hook_on_kyc_approved_not_found(db: RuntimeDbWeight) -> (out: Weight)
        ensures
            out == benchmarked(10_000_000, 0, db, 1, 0),
    {
        with_db(Weight::from_parts(10_000_000, 0), db, 1, 0)
    }
}

} // verus!
