//! Storage migrations of the tiki pallet, with the checks run before and after them.
use vstd::prelude::*;
use crate::primitives::{RuntimeDbWeight, Weight};
use crate::scale::{decode_three_counts, encode_three_counts, le_bytes, le_at, lemma_le_at_u32, lemma_le_bytes_len};
use crate::tiki::TikiPallet;

verus! {

/// The storage version that the migrations bring the pallet to.
pub const STORAGE_VERSION: u16 = 1;

/// Why a check after a migration failed.
#[derive(Clone, Copy, Debug, PartialEq, Eq, Structural)]
pub enum TikiMigrationError {
    /// "Failed to decode pre-upgrade state".
    DecodeFailed,
    /// "Storage version not updated correctly".
    VersionNotUpdated,
    /// "CitizenNft entries decreased during migration".
    CitizenNftCountDecreased,
    /// "UserTikis entries decreased during migration".
    UserTikisCountDecreased,
    /// "TikiHolder entries decreased during migration".
    TikiHolderCountDecreased,
}

/// The numbers of entries of `CitizenNft`, `UserTikis` and `TikiHolder`, as `u32`.
pub open spec fn storage_counts(p: TikiPallet) -> (u32, u32, u32) {
    (
        p.citizen_ids.key_seq().len() as u32,
        p.roles.key_seq().len() as u32,
        p.holders.key_seq().len() as u32,
    )
}

fn counts_of(p: &TikiPallet) -> (r: (u32, u32, u32))
    ensures
        r == storage_counts(*p),
{
    (p.citizen_ids.len() as u32, p.roles.len() as u32, p.holders.len() as u32)
}

/// What the check before an upgrade records: the numbers of entries of the three maps, as
/// four little-endian bytes each.
pub open spec fn snapshot(p: TikiPallet) -> Seq<u8> {
    le_bytes(storage_counts(p).0 as nat, 4) + le_bytes(storage_counts(p).1 as nat, 4) + le_bytes(
        storage_counts(p).2 as nat,
        4,
    )
}

/// What the check after an upgrade answers on the recorded `state`, in the order of its
/// checks.
pub open spec fn post_check(p: TikiPallet, state: Seq<u8>) -> Result<(), TikiMigrationError> {
    let counts = storage_counts(p);
    if state.len() < 12 {
        Err(TikiMigrationError::DecodeFailed)
    } else if p.storage_version != STORAGE_VERSION {
        Err(TikiMigrationError::VersionNotUpdated)
    } else if counts.0 < le_at(state, 0, 4) as u32 {
        Err(TikiMigrationError::CitizenNftCountDecreased)
    } else if counts.1 < le_at(state, 4, 4) as u32 {
        Err(TikiMigrationError::UserTikisCountDecreased)
    } else if counts.2 < le_at(state, 8, 4) as u32 {
        Err(TikiMigrationError::TikiHolderCountDecreased)
    } else {
        Ok(())
    }
}

/// The migration from storage version 0 to version 1.
pub struct MigrateToV1;

impl MigrateToV1 {
    /// `on_runtime_upgrade`: at version 0, sets the version and answers the weight of one
    /// read and one write; otherwise answers the weight of one read.
    pub fn on_runtime_upgrade(pallet: &mut TikiPallet, db: RuntimeDbWeight) -> (w: Weight)
        ensures
            old(pallet).storage_version == 0 ==> final(pallet).storage_version == STORAGE_VERSION
                && w == db.spec_reads_writes(1, 1),
            old(pallet).storage_version != 0 ==> final(pallet).storage_version == old(pallet).storage_version
                && w == db.spec_reads(1),
            final(pallet).citizen_ids == old(pallet).citizen_ids,
            final(pallet).roles == old(pallet).roles,
            final(pallet).holders == old(pallet).holders,
            final(pallet).next_id == old(pallet).next_id,
            final(pallet).nfts == old(pallet).nfts,
            final(pallet).config == old(pallet).config,
            final(pallet).events == old(pallet).events,
    {
        if pallet.storage_version == 0 {
            let migrated: u64 = 0;
            pallet.storage_version = STORAGE_VERSION;
            db.reads_writes(migrated + 1, migrated + 1)
        } else {
            db.reads(1)
        }
    }

    /// `pre_upgrade`: the numbers of entries of the three maps, encoded.
    pub fn pre_upgrade(pallet: &TikiPallet) -> (r: Vec<u8>)
        ensures
            r@ == snapshot(*pallet),
    {
        let (a, b, c) = counts_of(pallet);
        encode_three_counts(a, b, c)
    }

    /// `post_upgrade`: checks that the version was set and that no map lost entries since
    /// `state` was taken.
    pub fn post_upgrade(pallet: &TikiPallet, state: Vec<u8>) -> (r: Result<(), TikiMigrationError>)
        ensures
            r == post_check(*pallet, state@),
    {
        let (pre_citizens, pre_tikis, pre_holders) = match decode_three_counts(state.as_slice()) {
            Some(t) => t,
            None => return Err(TikiMigrationError::DecodeFailed),
        };
        if pallet.storage_version != STORAGE_VERSION {
            return Err(TikiMigrationError::VersionNotUpdated);
        }
        let (citizens, tikis, holders) = counts_of(pallet);
        if citizens < pre_citizens {
            return Err(TikiMigrationError::CitizenNftCountDecreased);
        }
        if tikis < pre_tikis {
            return Err(TikiMigrationError::UserTikisCountDecreased);
        }
        if holders < pre_holders {
            return Err(TikiMigrationError::TikiHolderCountDecreased);
        }
        Ok(())
    }
}

/// The migration to storage version 2.
pub struct MigrateToV2;

impl MigrateToV2 {
    /// `on_runtime_upgrade`: below version 2, writes the current storage version and answers
    /// the weight of one read and one write; otherwise answers the weight of one read.
    pub fn on_runtime_upgrade(pallet: &mut TikiPallet, db: RuntimeDbWeight) -> (w: Weight)
        ensures
            old(pallet).storage_version < 2 ==> final(pallet).storage_version == STORAGE_VERSION
                && w == db.spec_reads_writes(1, 1),
            old(pallet).storage_version >= 2 ==> final(pallet).storage_version == old(pallet).storage_version
                && w == db.spec_reads(1),
            final(pallet).citizen_ids == old(pallet).citizen_ids,
            final(pallet).roles == old(pallet).roles,
            final(pallet).holders == old(pallet).holders,
            final(pallet).nfts == old(pallet).nfts,
    {
        if pallet.storage_version < 2 {
            pallet.storage_version = STORAGE_VERSION;
            db.reads_writes(1, 1)
        } else {
            db.reads(1)
        }
    }
}

/// The check after the first migration passes on what the check before it recorded: the
/// migration sets the version and keeps the three maps.
pub proof fn lemma_migration_passes_its_check(before: TikiPallet, after: TikiPallet)
    requires
        after.storage_version == STORAGE_VERSION,
        after.citizen_ids == before.citizen_ids,
        after.roles == before.roles,
        after.holders == before.holders,
    ensures
        post_check(after, snapshot(before)) == Ok::<(), TikiMigrationError>(()),
{
    let c = storage_counts(before);
    let b0 = le_bytes(c.0 as nat, 4);
    let b1 = le_bytes(c.1 as nat, 4);
    let b2 = le_bytes(c.2 as nat, 4);
    lemma_le_bytes_len(c.0 as nat, 4);
    lemma_le_bytes_len(c.1 as nat, 4);
    lemma_le_bytes_len(c.2 as nat, 4);
    let st = snapshot(before);
    lemma_le_at_u32(Seq::<u8>::empty(), c.0, b1 + b2);
    assert(Seq::<u8>::empty() + b0 + (b1 + b2) =~= st);
    lemma_le_at_u32(b0, c.1, b2);
    assert(b0 + b1 + b2 =~= st);
    lemma_le_at_u32(b0 + b1, c.2, Seq::<u8>::empty());
    assert(b0 + b1 + b2 + Seq::<u8>::empty() =~= st);
}

} // verus!
