//! Identity registration and the KYC (know-your-customer) approval workflow.
//!
//! A user registers an identity once, applies for KYC with a deposit reserved from its
//! balance, and the approval origin approves, rejects or (once approved) revokes it.
//! Approval returns the deposit and notifies the citizenship-NFT provider and the
//! `OnKycApproved` hook; rejection slashes the deposit and lets the user apply again.
use vstd::prelude::*;
use crate::primitives::{AccountId, Balance, BlockNumber, Origin, signer_of, ensure_signed, RuntimeDbWeight, Weight, benchmarked, with_db};
use crate::ledger::{Ledger, LedgerError};
use crate::storage::KeyMap;

verus! {

/// The state of an account's KYC process.
#[derive(Clone, Copy, Debug, PartialEq, Eq, Structural)]
pub enum KycLevel {
    /// No application was ever made.
    NotStarted,
    /// An application awaits review.
    Pending,
    /// The application was approved: the account is a citizen.
    Approved,
    /// The pending application was rejected.
    Rejected,
    /// An approved KYC was revoked.
    Revoked,
}

impl Default for KycLevel {
    fn default() -> (r: Self)
        ensures
            r == KycLevel::NotStarted,
    {
        KycLevel::NotStarted
    }
}

/// Identity information of an account.
#[derive(Clone, Debug)]
pub struct IdentityInfo {
    pub name: Vec<u8>,
    pub email: Vec<u8>,
}

/// A KYC application: content identifiers of the documents and free-form notes.
#[derive(Clone, Debug)]
pub struct KycApplication {
    pub cids: Vec<Vec<u8>>,
    pub notes: Vec<u8>,
}

/// The pallet's constants.
#[derive(Clone, Copy, Debug, PartialEq, Eq, Structural)]
pub struct KycConfig {
    /// Deposit reserved while an application is pending.
    pub application_deposit: Balance,
    /// Largest length of a name, an e-mail address or the notes.
    pub max_string_length: u32,
    /// Largest length of a content identifier, and largest number of them.
    pub max_cid_length: u32,
}

/// Events of the pallet.
#[derive(Clone, Copy, Debug, PartialEq, Eq, Structural)]
pub enum KycEvent {
    IdentitySet { who: AccountId },
    KycApplied { who: AccountId },
    KycApproved { who: AccountId },
    KycRejected { who: AccountId },
    KycRevoked { who: AccountId },
}

/// Errors of the pallet.
#[derive(Clone, Copy, Debug, PartialEq, Eq, Structural)]
pub enum KycError {
    /// The origin may not make this call.
    BadOrigin,
    IdentityAlreadyExists,
    IdentityNotFound,
    KycApplicationAlreadyExists,
    KycApplicationNotFound,
    CannotRevokeKycInCurrentState,
    CannotApproveKycInCurrentState,
    CannotRejectKycInCurrentState,
    /// The deposit could not be reserved.
    Currency(LedgerError),
}

/// Query of an account's KYC status.
pub trait KycStatus {
    /// The KYC status of `who`.
    spec fn kyc_level_of(&self, who: AccountId) -> KycLevel;

    /// The KYC status of `who`.
    fn get_kyc_status(&self, who: AccountId) -> (r: KycLevel)
        ensures
            r == self.kyc_level_of(who),
    ;
}

/// Query of an account's identity information.
pub trait IdentityInfoProvider {
    /// The identity of `who`, if registered.
    spec fn identity_info_of(&self, who: AccountId) -> Option<IdentityInfo>;

    /// The identity of `who`, if registered.
    fn get_identity_info(&self, who: AccountId) -> (r: Option<&IdentityInfo>)
        ensures
            match r {
                Some(i) => self.identity_info_of(who) == Some(*i),
                None => self.identity_info_of(who) is None,
            },
    ;
}

/// Actions to take when an account's KYC is approved (the referral pallet confirms a
/// pending referral).
pub trait OnKycApproved: Sized {
    /// Whether `after` is what the hook makes of `self` when it is told, at block `now`, that
    /// `who` was approved in `kyc`.
    spec fn approval_effect(&self, after: Self, kyc: IdentityKyc, who: AccountId, now: BlockNumber) -> bool;

    /// Called after the status of `who` was set to `Approved` in `kyc`, at block `now`.
    fn on_kyc_approved(&mut self, kyc: &IdentityKyc, who: AccountId, now: BlockNumber)
        ensures
            old(self).approval_effect(*final(self), *kyc, who, now),
    ;
}

/// Minting of the citizenship NFT when an account's KYC is approved (the tiki pallet).
pub trait CitizenNftProvider: Sized {
    /// The provider's internal consistency, which minting keeps.
    spec fn provider_wf(&self) -> bool;

    /// Whether `after` is what minting the citizenship NFT of `who` makes of `self`, the
    /// refusal included.
    spec fn mint_effect(&self, after: Self, who: AccountId) -> bool;

    /// Mints the citizenship NFT of `who`; a failure does not undo the approval.
    fn mint_citizen_nft(&mut self, who: AccountId, now: BlockNumber) -> (r: Result<(), ()>)
        requires
            old(self).provider_wf(),
        ensures
            final(self).provider_wf(),
            old(self).mint_effect(*final(self), who),
    ;
}

/// The storage of the identity & KYC pallet.
pub struct IdentityKyc {
    pub config: KycConfig,
    /// `Identities`: identity information per account.
    pub identities: KeyMap<IdentityInfo>,
    /// `KycStatuses`: KYC status per account (absent means `NotStarted`).
    pub kyc_statuses: KeyMap<KycLevel>,
    /// `PendingKycApplications`: applications awaiting review.
    pub pending_applications: KeyMap<KycApplication>,
    /// Events deposited so far.
    pub events: Vec<KycEvent>,
}

impl IdentityKyc {
    /// The KYC status of `who`; `NotStarted` when none is stored.
    pub open spec fn status_of(&self, who: AccountId) -> KycLevel {
        if self.kyc_statuses@.contains_key(who) {
            self.kyc_statuses@[who]
        } else {
            KycLevel::NotStarted
        }
    }

    /// The state of every storage item but the KYC statuses and the events is that of `other`.
    pub open spec fn same_identities(&self, other: &IdentityKyc) -> bool {
        &&& self.config == other.config
        &&& self.identities@ == other.identities@
    }

    /// A pallet with empty storage.
    pub fn new(config: KycConfig) -> (s: Self)
        ensures
            s.config == config,
            s.identities@ == Map::<AccountId, IdentityInfo>::empty(),
            s.kyc_statuses@ == Map::<AccountId, KycLevel>::empty(),
            s.pending_applications@ == Map::<AccountId, KycApplication>::empty(),
            s.events@ == Seq::<KycEvent>::empty(),
    {
        IdentityKyc {
            config,
            identities: KeyMap::new(),
            kyc_statuses: KeyMap::new(),
            pending_applications: KeyMap::new(),
            events: Vec::new(),
        }
    }

    /// `identity_of`: the identity of `who`, if registered.
    pub fn identity_of(&self, who: AccountId) -> (r: Option<&IdentityInfo>)
        ensures
            match r {
                Some(i) => self.identities@.contains_key(who) && *i == self.identities@[who],
                None => !self.identities@.contains_key(who),
            },
    {
        self.identities.get(who)
    }

    /// `kyc_status_of`: the KYC status of `who`.
    pub fn kyc_status_of(&self, who: AccountId) -> (r: KycLevel)
        ensures
            r == self.status_of(who),
    {
        match self.kyc_statuses.get(who) {
            Some(l) => *l,
            None => KycLevel::NotStarted,
        }
    }

    /// `pending_application_of`: the pending application of `who`, if any.
    pub fn pending_application_of(&self, who: AccountId) -> (r: Option<&KycApplication>)
        ensures
            match r {
                Some(a) => self.pending_applications@.contains_key(who) && *a
                    == self.pending_applications@[who],
                None => !self.pending_applications@.contains_key(who),
            },
    {
        self.pending_applications.get(who)
    }

    /// `set_identity`: a signed account registers its identity, once.
    pub fn set_identity(&mut self, origin: Origin, name: Vec<u8>, email: Vec<u8>) -> (r: Result<
        (),
        KycError,
    >)
        requires
            name@.len() <= old(self).config.max_string_length,
            email@.len() <= old(self).config.max_string_length,
        ensures
            r is Err ==> *final(self) == *old(self),
            signer_of(origin) is None ==> r == Err::<(), KycError>(KycError::BadOrigin),
            signer_of(origin) matches Some(who) ==> {
                if old(self).identities@.contains_key(who) {
                    r == Err::<(), KycError>(KycError::IdentityAlreadyExists)
                } else {
                    &&& r is Ok
                    &&& final(self).identities@ == old(self).identities@.insert(
                        who,
                        IdentityInfo { name, email },
                    )
                    &&& final(self).kyc_statuses == old(self).kyc_statuses
                    &&& final(self).pending_applications == old(self).pending_applications
                    &&& final(self).config == old(self).config
                    &&& final(self).events@ == old(self).events@.push(
                        KycEvent::IdentitySet { who },
                    )
                }
            },
    {
        let who = match ensure_signed(origin) {
            Some(w) => w,
            None => return Err(KycError::BadOrigin),
        };
        if self.identities.contains_key(who) {
            return Err(KycError::IdentityAlreadyExists);
        }
        self.identities.insert(who, IdentityInfo { name, email });
        self.events.push(KycEvent::IdentitySet { who });
        Ok(())
    }

    /// `apply_for_kyc`: an account with an identity and no KYC in progress (never applied,
    /// or rejected) applies, reserving the application deposit.
    pub fn apply_for_kyc(
        &mut self,
        currency: &mut Ledger,
        origin: Origin,
        cids: Vec<Vec<u8>>,
        notes: Vec<u8>,
    ) -> (r: Result<(), KycError>)
        requires
            old(currency).wf(),
            notes@.len() <= old(self).config.max_string_length,
            cids@.len() <= old(self).config.max_cid_length,
            forall|i: int| 0 <= i < cids@.len() ==> #[trigger] cids@[i]@.len() <= old(
                self,
            ).config.max_cid_length,
        ensures
            final(currency).wf(),
            r is Err ==> *final(self) == *old(self) && *final(currency) == *old(currency),
            signer_of(origin) is None ==> r == Err::<(), KycError>(KycError::BadOrigin),
            signer_of(origin) matches Some(who) ==> {
                if !old(self).identities@.contains_key(who) {
                    r == Err::<(), KycError>(KycError::IdentityNotFound)
                } else if !(old(self).status_of(who) == KycLevel::NotStarted || old(self).status_of(
                    who,
                ) == KycLevel::Rejected) {
                    r == Err::<(), KycError>(KycError::KycApplicationAlreadyExists)
                } else if old(currency).free(who) < old(self).config.application_deposit {
                    r == Err::<(), KycError>(KycError::Currency(LedgerError::InsufficientBalance))
                } else {
                    &&& r is Ok
                    &&& final(currency).free(who) == old(currency).free(who) - old(
                        self,
                    ).config.application_deposit
                    &&& final(currency).reserved(who) == old(currency).reserved(who) + old(
                        self,
                    ).config.application_deposit
                    &&& final(currency).same_except(&*old(currency), set![who])
                    &&& final(currency).issuance() == old(currency).issuance()
                    &&& final(self).pending_applications@ == old(
                        self,
                    ).pending_applications@.insert(who, KycApplication { cids, notes })
                    &&& final(self).kyc_statuses@ == old(self).kyc_statuses@.insert(
                        who,
                        KycLevel::Pending,
                    )
                    &&& final(self).same_identities(&*old(self))
                    &&& final(self).events@ == old(self).events@.push(KycEvent::KycApplied { who })
                }
            },
    {
        let who = match ensure_signed(origin) {
            Some(w) => w,
            None => return Err(KycError::BadOrigin),
        };
        if !self.identities.contains_key(who) {
            return Err(KycError::IdentityNotFound);
        }
        let level = self.kyc_status_of(who);
        if !(level == KycLevel::NotStarted || level == KycLevel::Rejected) {
            return Err(KycError::KycApplicationAlreadyExists);
        }
        let deposit = self.config.application_deposit;
        match currency.reserve(who, deposit) {
            Ok(()) => {},
            Err(e) => return Err(KycError::Currency(e)),
        }
        self.pending_applications.insert(who, KycApplication { cids, notes });
        self.kyc_statuses.insert(who, KycLevel::Pending);
        self.events.push(KycEvent::KycApplied { who });
        Ok(())
    }

    /// The checks that approval, rejection and revocation make before changing anything.
    fn review_check(&self, origin: Origin, who: AccountId, required: KycLevel, wrong_state: KycError) -> (r: Result<(), KycError>)
        ensures
            r == review_outcome(*self, origin, who, required, wrong_state),
    {
        if origin != Origin::Root {
            return Err(KycError::BadOrigin);
        }
        if self.kyc_status_of(who) != required {
            return Err(wrong_state);
        }
        if required == KycLevel::Pending && !self.pending_applications.contains_key(who) {
            return Err(KycError::KycApplicationNotFound);
        }
        Ok(())
    }

    /// `approve_kyc`: the approval origin (root) approves a pending application. The deposit
    /// is returned, the application removed and the status set to `Approved`; then the
    /// citizenship NFT is minted (a failure is ignored) and `hook` is notified.
    /// The events of this pallet and of the hook's go to separate lists, so the approval's
    /// event is recorded before the hook runs.
    pub fn approve_kyc<N: CitizenNftProvider, H: OnKycApproved>(
        &mut self,
        currency: &mut Ledger,
        nft: &mut N,
        hook: &mut H,
        origin: Origin,
        who: AccountId,
        now: BlockNumber,
    ) -> (r: Result<(), KycError>)
        requires
            old(currency).wf(),
            old(nft).provider_wf(),
        ensures
            final(currency).wf(),
            final(nft).provider_wf(),
            r == review_outcome(*old(self), origin, who, KycLevel::Pending, KycError::CannotApproveKycInCurrentState),
            r is Err ==> {
                &&& *final(self) == *old(self)
                &&& *final(currency) == *old(currency)
                &&& *final(nft) == *old(nft)
                &&& *final(hook) == *old(hook)
            },
            r is Ok ==> {
                let deposit = old(self).config.application_deposit;
                let back = if deposit <= old(currency).reserved(who) {
                    deposit
                } else {
                    old(currency).reserved(who)
                };
                &&& final(currency).free(who) == old(currency).free(who) + back
                &&& final(currency).reserved(who) == old(currency).reserved(who) - back
                &&& final(currency).same_except(&*old(currency), set![who])
                &&& final(currency).issuance() == old(currency).issuance()
                &&& final(self).pending_applications@ == old(self).pending_applications@.remove(who)
                &&& final(self).kyc_statuses@ == old(self).kyc_statuses@.insert(who, KycLevel::Approved)
                &&& final(self).same_identities(&*old(self))
                &&& final(self).events@ == old(self).events@.push(KycEvent::KycApproved { who })
                &&& old(nft).mint_effect(*final(nft), who)
                &&& old(hook).approval_effect(*final(hook), *final(self), who, now)
            },
    {
        let checked = self.review_check(origin, who, KycLevel::Pending, KycError::CannotApproveKycInCurrentState);
        if checked.is_err() {
            return checked;
        }
        let deposit = self.config.application_deposit;
        let _ = currency.unreserve(who, deposit);
        let _ = self.pending_applications.remove(who);
        self.kyc_statuses.insert(who, KycLevel::Approved);
        let _ = nft.mint_citizen_nft(who, now);
        self.events.push(KycEvent::KycApproved { who });
        hook.on_kyc_approved(&*self, who, now);
        Ok(())
    }

    /// `reject_kyc`: the approval origin (root) rejects a pending application. The deposit
    /// is slashed and the status set to `Rejected`, from which the user may apply again.
    pub fn reject_kyc(&mut self, currency: &mut Ledger, origin: Origin, who: AccountId) -> (r:
        Result<(), KycError>)
        requires
            old(currency).wf(),
        ensures
            final(currency).wf(),
            r == review_outcome(*old(self), origin, who, KycLevel::Pending, KycError::CannotRejectKycInCurrentState),
            r is Err ==> *final(self) == *old(self) && *final(currency) == *old(currency),
            r is Ok ==> {
                let deposit = old(self).config.application_deposit;
                let slashed = if deposit <= old(currency).reserved(who) {
                    deposit
                } else {
                    old(currency).reserved(who)
                };
                &&& final(currency).free(who) == old(currency).free(who)
                &&& final(currency).reserved(who) == old(currency).reserved(who) - slashed
                &&& final(currency).issuance() == old(currency).issuance() - slashed
                &&& final(currency).same_except(&*old(currency), set![who])
                &&& final(self).pending_applications@ == old(self).pending_applications@.remove(who)
                &&& final(self).kyc_statuses@ == old(self).kyc_statuses@.insert(who, KycLevel::Rejected)
                &&& final(self).same_identities(&*old(self))
                &&& final(self).events@ == old(self).events@.push(KycEvent::KycRejected { who })
            },
    {
        let checked = self.review_check(origin, who, KycLevel::Pending, KycError::CannotRejectKycInCurrentState);
        if checked.is_err() {
            return checked;
        }
        let deposit = self.config.application_deposit;
        let _ = currency.slash_reserved(who, deposit);
        let _ = self.pending_applications.remove(who);
        self.kyc_statuses.insert(who, KycLevel::Rejected);
        self.events.push(KycEvent::KycRejected { who });
        Ok(())
    }

    /// `revoke_kyc`: the approval origin (root) revokes an approved KYC.
    pub fn revoke_kyc(&mut self, origin: Origin, who: AccountId) -> (r: Result<(), KycError>)
        ensures
            r == review_outcome(*old(self), origin, who, KycLevel::Approved, KycError::CannotRevokeKycInCurrentState),
            r is Ok <==> origin == Origin::Root && old(self).status_of(who) == KycLevel::Approved,
            origin == Origin::Root && old(self).status_of(who) != KycLevel::Approved ==> r == Err::<(), KycError>(
                KycError::CannotRevokeKycInCurrentState,
            ),
            r is Err ==> *final(self) == *old(self),
            r is Ok ==> {
                &&& final(self).pending_applications == old(self).pending_applications
                &&& final(self).kyc_statuses@ == old(self).kyc_statuses@.insert(who, KycLevel::Revoked)
                &&& final(self).same_identities(&*old(self))
                &&& final(self).events@ == old(self).events@.push(KycEvent::KycRevoked { who })
            },
    {
        let checked = self.review_check(origin, who, KycLevel::Approved, KycError::CannotRevokeKycInCurrentState);
        if checked.is_err() {
            return checked;
        }
        self.kyc_statuses.insert(who, KycLevel::Revoked);
        self.events.push(KycEvent::KycRevoked { who });
        Ok(())
    }
}

/// What a review call (approve, reject, revoke) answers: `BadOrigin` unless root, the
/// wrong-state error unless the status is `required`, and `KycApplicationNotFound` when a
/// pending status has no application.
pub open spec fn review_outcome(
    s: IdentityKyc,
    origin: Origin,
    who: AccountId,
    required: KycLevel,
    wrong_state: KycError,
) -> Result<(), KycError> {
    if origin != Origin::Root {
        Err(KycError::BadOrigin)
    } else if s.status_of(who) != required {
        Err(wrong_state)
    } else if required == KycLevel::Pending && !s.pending_applications@.contains_key(who) {
        Err(KycError::KycApplicationNotFound)
    } else {
        Ok(())
    }
}

/// Who may have a KYC approved, rejected or revoked: each is refused with `BadOrigin` unless
/// the origin is root. Revocation then succeeds exactly for an approved account, and answers
/// `CannotRevokeKycInCurrentState` for every other status (a pending one included).
/// Approval and rejection succeed exactly for a pending account whose application is stored,
/// and answer their wrong-state error for every status but pending.
pub proof fn lemma_review_answers(s: IdentityKyc, origin: Origin, who: AccountId)
    ensures
        origin != Origin::Root ==> review_outcome(s, origin, who, KycLevel::Approved, KycError::CannotRevokeKycInCurrentState)
            == Err::<(), KycError>(KycError::BadOrigin),
        review_outcome(s, origin, who, KycLevel::Approved, KycError::CannotRevokeKycInCurrentState) is Ok <==> (origin
            == Origin::Root && s.status_of(who) == KycLevel::Approved),
        origin == Origin::Root && s.status_of(who) != KycLevel::Approved ==> review_outcome(
            s,
            origin,
            who,
            KycLevel::Approved,
            KycError::CannotRevokeKycInCurrentState,
        ) == Err::<(), KycError>(KycError::CannotRevokeKycInCurrentState),
        review_outcome(s, origin, who, KycLevel::Pending, KycError::CannotApproveKycInCurrentState) is Ok <==> (origin
            == Origin::Root && s.status_of(who) == KycLevel::Pending && s.pending_applications@.contains_key(who)),
        origin == Origin::Root && s.status_of(who) != KycLevel::Pending ==> review_outcome(
            s,
            origin,
            who,
            KycLevel::Pending,
            KycError::CannotApproveKycInCurrentState,
        ) == Err::<(), KycError>(KycError::CannotApproveKycInCurrentState),
        review_outcome(s, origin, who, KycLevel::Pending, KycError::CannotRejectKycInCurrentState) is Ok <==> (origin
            == Origin::Root && s.status_of(who) == KycLevel::Pending && s.pending_applications@.contains_key(who)),
        origin == Origin::Root && s.status_of(who) != KycLevel::Pending ==> review_outcome(
            s,
            origin,
            who,
            KycLevel::Pending,
            KycError::CannotRejectKycInCurrentState,
        ) == Err::<(), KycError>(KycError::CannotRejectKycInCurrentState),
{
}

impl KycStatus for IdentityKyc {
    open spec fn kyc_level_of(&self, who: AccountId) -> KycLevel {
        self.status_of(who)
    }

    fn get_kyc_status(&self, who: AccountId) -> (r: KycLevel) {
        self.kyc_status_of(who)
    }
}

impl IdentityInfoProvider for IdentityKyc {
    open spec fn identity_info_of(&self, who: AccountId) -> Option<IdentityInfo> {
        if self.identities@.contains_key(who) {
            Some(self.identities@[who])
        } else {
            None
        }
    }

    fn get_identity_info(&self, who: AccountId) -> (r: Option<&IdentityInfo>) {
        self.identity_of(who)
    }
}

/// The weights of the calls of the pallet.
pub trait WeightInfo {
    fn set_identity(db: RuntimeDbWeight) -> Weight;
    fn apply_for_kyc(db: RuntimeDbWeight) -> Weight;
    fn approve_kyc(db: RuntimeDbWeight) -> Weight;
    fn revoke_kyc(db: RuntimeDbWeight) -> Weight;
}

/// The benchmarked weights of the calls of the identity and KYC pallet, with the storage reads and writes
/// priced by the runtime's `db`.
pub struct SubstrateWeight;

impl WeightInfo for SubstrateWeight {
    fn set_identity(db: RuntimeDbWeight) -> (out: Weight)
        ensures
            out == benchmarked(10_000, 0, db, 0, 1),
    {
        with_db(Weight::from_parts(10_000, 0), db, 0, 1)
    }

    fn apply_for_kyc(db: RuntimeDbWeight) -> (out: Weight)
        ensures
            out == benchmarked(20_000, 0, db, 2, 2),
    {
        with_db(Weight::from_parts(20_000, 0), db, 2, 2)
    }

    fn approve_kyc(db: RuntimeDbWeight) -> (out: Weight)
        ensures
            out == benchmarked(20_000, 0, db, 2, 2),
    {
        with_db(Weight::from_parts(20_000, 0), db, 2, 2)
    }

    fn revoke_kyc(db: RuntimeDbWeight) -> (out: Weight)
        ensures
            out == benchmarked(15_000, 0, db, 1, 1),
    {
        with_db(Weight::from_parts(15_000, 0), db, 1, 1)
    }
}

} // verus!
