//! Storage migrations of the treasury pallet, with the checks run before and after them.
use vstd::prelude::*;
use crate::primitives::{RuntimeDbWeight, Weight, saturate};
use crate::pez_treasury::PezTreasury;
use crate::scale::{decode_counts_and_flags, encode_counts_and_flags, le_bytes, le_at, lemma_le_at_u32, lemma_le_bytes_len};

verus! {

/// The storage version that the first migration brings the pallet to.
pub const STORAGE_VERSION: u16 = 1;

/// Why a check after a migration failed.
#[derive(Clone, Copy, Debug, PartialEq, Eq, Structural)]
pub enum TreasuryMigrationError {
    /// "Failed to decode pre-upgrade state".
    DecodeFailed,
    /// "Storage version not updated correctly".
    VersionNotUpdated,
    /// "MonthlyReleases entries decreased during migration".
    MonthlyReleasesDecreased,
    /// "NextReleaseMonth decreased during migration".
    NextReleaseMonthDecreased,
    /// "TreasuryStartBlock was removed during migration".
    TreasuryStartBlockRemoved,
    /// "GenesisDistributionDone was reset during migration".
    GenesisDistributionReset,
}

/// The number of monthly release records, as `u32`.
pub open spec fn releases_count(p: PezTreasury) -> u32 {
    p.releases.key_seq().len() as u32
}

/// The number of storage items that the first migration counts: the release records, the
/// halving state and the start block (both stored once the treasury is initialized), and the
/// genesis flag when set.
pub open spec fn migrated_items(p: PezTreasury) -> int {
    p.releases.key_seq().len() + (if p.start_block is Some { 2int } else { 0int }) + if p.genesis_done {
        1int
    } else {
        0int
    }
}

/// What the check before the first migration records: the number of release records and
/// the next release month, four little-endian bytes each, then one byte each for whether
/// the start block and the genesis flag are set.
pub open spec fn snapshot(p: PezTreasury) -> Seq<u8> {
    le_bytes(releases_count(p) as nat, 4) + le_bytes(p.next_month as nat, 4) + seq![
        if p.start_block is Some {
            1u8
        } else {
            0u8
        },
    ] + seq![
        if p.genesis_done {
            1u8
        } else {
            0u8
        },
    ]
}

/// What the check after the first migration answers on the recorded `state`, in the order
/// of its checks.
pub open spec fn post_check(p: PezTreasury, state: Seq<u8>) -> Result<(), TreasuryMigrationError> {
    if state.len() < 10 || state[8] > 1 || state[9] > 1 {
        Err(TreasuryMigrationError::DecodeFailed)
    } else if p.storage_version != STORAGE_VERSION {
        Err(TreasuryMigrationError::VersionNotUpdated)
    } else if releases_count(p) < le_at(state, 0, 4) as u32 {
        Err(TreasuryMigrationError::MonthlyReleasesDecreased)
    } else if p.next_month < le_at(state, 4, 4) as u32 {
        Err(TreasuryMigrationError::NextReleaseMonthDecreased)
    } else if state[8] == 1 && p.start_block is None {
        Err(TreasuryMigrationError::TreasuryStartBlockRemoved)
    } else if state[9] == 1 && !p.genesis_done {
        Err(TreasuryMigrationError::GenesisDistributionReset)
    } else {
        Ok(())
    }
}

/// The migration from storage version 0 to version 1.
pub struct MigrateToV1;

impl MigrateToV1 {
    /// `on_runtime_upgrade`: at version 0, sets the version and answers the weight of
    /// reading the counted items and the version and of one write; otherwise answers the
    /// weight of one read.
    pub fn on_runtime_upgrade(pallet: &mut PezTreasury, db: RuntimeDbWeight) -> (w: Weight)
        ensures
            old(pallet).storage_version == 0 ==> final(pallet).storage_version == STORAGE_VERSION
                && w == db.spec_reads_writes(saturate(migrated_items(*old(pallet)) + 1), 1),
            old(pallet).storage_version != 0 ==> final(pallet).storage_version == old(pallet).storage_version
                && w == db.spec_reads(1),
            final(pallet).halving == old(pallet).halving,
            final(pallet).releases == old(pallet).releases,
            final(pallet).next_month == old(pallet).next_month,
            final(pallet).start_block == old(pallet).start_block,
            final(pallet).genesis_done == old(pallet).genesis_done,
            final(pallet).events == old(pallet).events,
    {
        if pallet.storage_version == 0 {
            let releases = pallet.releases.len() as u64;
            let halving: u64 = if pallet.start_block.is_some() { 1 } else { 0 };
            let start: u64 = if pallet.start_block.is_some() { 1 } else { 0 };
            let genesis: u64 = if pallet.genesis_done { 1 } else { 0 };
            let migrated = releases.saturating_add(halving).saturating_add(start).saturating_add(genesis);
            pallet.storage_version = STORAGE_VERSION;
            db.reads_writes(migrated.saturating_add(1), 1)
        } else {
            db.reads(1)
        }
    }
}

impl MigrateToV1 {
    /// `pre_upgrade`: the number of release records, the next release month, and whether
    /// the start block and the genesis flag are set, encoded.
    pub fn pre_upgrade(pallet: &PezTreasury) -> (r: Vec<u8>)
        ensures
            r@ == snapshot(*pallet),
    {
        let count = pallet.releases.len() as u32;
        encode_counts_and_flags(count, pallet.next_month, pallet.start_block.is_some(), pallet.genesis_done)
    }

    /// `post_upgrade`: checks that the version was set, that no release record was lost,
    /// that the next release month did not fall, and that neither the start block nor the
    /// genesis flag was cleared since `state` was taken.
    pub fn post_upgrade(pallet: &PezTreasury, state: Vec<u8>) -> (r: Result<(), TreasuryMigrationError>)
        ensures
            r == post_check(*pallet, state@),
    {
        let (pre_count, pre_next, pre_start, pre_genesis) = match decode_counts_and_flags(state.as_slice()) {
            Some(t) => t,
            None => return Err(TreasuryMigrationError::DecodeFailed),
        };
        if pallet.storage_version != STORAGE_VERSION {
            return Err(TreasuryMigrationError::VersionNotUpdated);
        }
        let count = pallet.releases.len() as u32;
        if count < pre_count {
            return Err(TreasuryMigrationError::MonthlyReleasesDecreased);
        }
        if pallet.next_month < pre_next {
            return Err(TreasuryMigrationError::NextReleaseMonthDecreased);
        }
        if pre_start && pallet.start_block.is_none() {
            return Err(TreasuryMigrationError::TreasuryStartBlockRemoved);
        }
        if pre_genesis && !pallet.genesis_done {
            return Err(TreasuryMigrationError::GenesisDistributionReset);
        }
        Ok(())
    }
}

/// The migration to storage version 2.
pub struct MigrateToV2;

impl MigrateToV2 {
    /// `on_runtime_upgrade`: below version 2, sets version 2 and answers the weight of one
    /// read and one write; otherwise answers the weight of one read.
    pub fn on_runtime_upgrade(pallet: &mut PezTreasury, db: RuntimeDbWeight) -> (w: Weight)
        ensures
            old(pallet).storage_version < 2 ==> final(pallet).storage_version == 2 && w == db.spec_reads_writes(1, 1),
            old(pallet).storage_version >= 2 ==> final(pallet).storage_version == old(pallet).storage_version
                && w == db.spec_reads(1),
            final(pallet).halving == old(pallet).halving,
            final(pallet).releases == old(pallet).releases,
            final(pallet).next_month == old(pallet).next_month,
            final(pallet).start_block == old(pallet).start_block,
            final(pallet).genesis_done == old(pallet).genesis_done,
    {
        if pallet.storage_version < 2 {
            pallet.storage_version = 2;
            db.reads_writes(1, 1)
        } else {
            db.reads(1)
        }
    }

    /// `pre_upgrade`: nothing to record.
    pub fn pre_upgrade(pallet: &PezTreasury) -> (r: Vec<u8>)
        ensures
            r@ == Seq::<u8>::empty(),
    {
        Vec::new()
    }

    /// `post_upgrade`: nothing to check.
    pub fn post_upgrade(pallet: &PezTreasury, state: Vec<u8>) -> (r: Result<(), TreasuryMigrationError>)
        ensures
            r is Ok,
    {
        Ok(())
    }
}

/// The check after the first migration passes on what the check before it recorded: the
/// migration sets the version and keeps the release records, the next release month, the
/// start block and the genesis flag.
pub proof fn lemma_migration_passes_its_check(before: PezTreasury, after: PezTreasury)
    requires
        after.storage_version == STORAGE_VERSION,
        after.releases == before.releases,
        after.next_month == before.next_month,
        after.start_block == before.start_block,
        after.genesis_done == before.genesis_done,
    ensures
        post_check(after, snapshot(before)) == Ok::<(), TreasuryMigrationError>(()),
{
    let b0 = le_bytes(releases_count(before) as nat, 4);
    let b1 = le_bytes(before.next_month as nat, 4);
    let f = seq![if before.start_block is Some { 1u8 } else { 0u8 }] + seq![
        if before.genesis_done {
            1u8
        } else {
            0u8
        },
    ];
    lemma_le_bytes_len(releases_count(before) as nat, 4);
    lemma_le_bytes_len(before.next_month as nat, 4);
    let st = snapshot(before);
    assert(st =~= b0 + b1 + f);
    assert(st.len() == 10);
    assert(st[8] == f[0] && st[9] == f[1]);
    lemma_le_at_u32(Seq::<u8>::empty(), releases_count(before), b1 + f);
    assert(Seq::<u8>::empty() + b0 + (b1 + f) =~= st);
    lemma_le_at_u32(b0, before.next_month, f);
}

} // verus!
