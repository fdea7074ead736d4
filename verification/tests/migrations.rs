use pezkuwi_pallets::ledger::Ledger;
use pezkuwi_pallets::pez_treasury::{PezTreasury, TreasuryConfig, BLOCKS_PER_MONTH};
use pezkuwi_pallets::primitives::{Origin, RuntimeDbWeight, Weight};
use pezkuwi_pallets::tiki::{Tiki, TikiConfig, TikiPallet};
use pezkuwi_pallets::tiki_migrations;
use pezkuwi_pallets::treasury_migrations;

/// The weights of a RocksDB read and write.
const ROCKS_DB: RuntimeDbWeight = RuntimeDbWeight { read: 25_000_000, write: 100_000_000 };

fn zero() -> Weight {
    Weight { ref_time: 0, proof_size: 0 }
}

fn tiki_pallet() -> TikiPallet {
    TikiPallet::new(TikiConfig { collection_id: 0, max_tikis_per_user: 100 }, 256)
}

fn treasury() -> PezTreasury {
    PezTreasury::new(TreasuryConfig {
        treasury_pallet_id: *b"py/trsry",
        incentive_pot_id: *b"py/incnt",
        government_pot_id: *b"py/govmt",
        presale_account: 100,
        founder_account: 200,
    })
}

#[test]
fn migrations_test_migration_v1() {
    let mut p = tiki_pallet();
    p.storage_version = 0;
    let weight = tiki_migrations::MigrateToV1::on_runtime_upgrade(&mut p, ROCKS_DB);
    assert_eq!(p.storage_version, tiki_migrations::STORAGE_VERSION);
    assert!(weight != zero());
    assert_eq!(weight, ROCKS_DB.reads_writes(1, 1));
}

#[test]
fn migrations_test_migration_idempotent() {
    let mut p = tiki_pallet();
    p.storage_version = tiki_migrations::STORAGE_VERSION;
    let weight = tiki_migrations::MigrateToV1::on_runtime_upgrade(&mut p, ROCKS_DB);
    assert_eq!(weight, ROCKS_DB.reads(1));
    assert_eq!(weight.ref_time, 25_000_000);
    assert_eq!(p.storage_version, tiki_migrations::STORAGE_VERSION);
}

#[test]
fn treasury_test_migration_v1() {
    let mut t = treasury();
    t.storage_version = 0;
    let weight = treasury_migrations::MigrateToV1::on_runtime_upgrade(&mut t, ROCKS_DB);
    assert_eq!(t.storage_version, treasury_migrations::STORAGE_VERSION);
    assert!(weight != zero());
    // Nothing is stored yet: only the version is read, and it is written.
    assert_eq!(weight, ROCKS_DB.reads_writes(1, 1));
}

#[test]
fn treasury_test_migration_idempotent() {
    let mut t = treasury();
    t.storage_version = treasury_migrations::STORAGE_VERSION;
    let weight = treasury_migrations::MigrateToV1::on_runtime_upgrade(&mut t, ROCKS_DB);
    assert_eq!(weight, ROCKS_DB.reads(1));
}

#[test]
fn treasury_migration_counts_stored_items() {
    let mut t = treasury();
    let mut assets = Ledger::new(1);
    assert_eq!(t.force_genesis_distribution(Origin::Root, &mut assets), Ok(()));
    assert_eq!(t.initialize_treasury(Origin::Root, 1), Ok(()));
    assert_eq!(t.release_monthly_funds(Origin::Root, &mut assets, 1 + BLOCKS_PER_MONTH as u64), Ok(()));
    let weight = treasury_migrations::MigrateToV1::on_runtime_upgrade(&mut t, ROCKS_DB);
    // One release record, the halving state and the start block, plus the version; no call
    // sets the genesis flag.
    assert_eq!(weight, ROCKS_DB.reads_writes(4, 1));
    assert_eq!(weight.ref_time, 4 * 25_000_000 + 100_000_000);
}

#[test]
fn tiki_migration_checks_pass_around_an_upgrade() {
    let mut p = tiki_pallet();
    p.storage_version = 0;
    assert!(p.force_mint_citizen_nft(Origin::Root, 5).is_ok());
    assert!(p.grant_tiki(Origin::Root, 5, Tiki::Xezinedar).is_ok());
    let state = tiki_migrations::MigrateToV1::pre_upgrade(&p);
    // One citizen, one account with roles, one unique-role holder, four bytes each.
    assert_eq!(state, vec![1, 0, 0, 0, 1, 0, 0, 0, 1, 0, 0, 0]);
    assert_eq!(
        tiki_migrations::MigrateToV1::post_upgrade(&p, state.clone()),
        Err(tiki_migrations::TikiMigrationError::VersionNotUpdated)
    );
    tiki_migrations::MigrateToV1::on_runtime_upgrade(&mut p, ROCKS_DB);
    assert_eq!(tiki_migrations::MigrateToV1::post_upgrade(&p, state), Ok(()));
    assert_eq!(
        tiki_migrations::MigrateToV1::post_upgrade(&p, vec![2, 0, 0, 0, 0, 0, 0, 0, 0, 0, 0, 0]),
        Err(tiki_migrations::TikiMigrationError::CitizenNftCountDecreased)
    );
    assert_eq!(
        tiki_migrations::MigrateToV1::post_upgrade(&p, vec![1, 0, 0]),
        Err(tiki_migrations::TikiMigrationError::DecodeFailed)
    );
}

#[test]
fn treasury_migration_checks_pass_around_an_upgrade() {
    let mut t = treasury();
    let mut assets = Ledger::new(1);
    assert_eq!(t.force_genesis_distribution(Origin::Root, &mut assets), Ok(()));
    assert_eq!(t.initialize_treasury(Origin::Root, 1), Ok(()));
    let state = treasury_migrations::MigrateToV1::pre_upgrade(&t);
    // No release record, next month 0, the start block set, the genesis flag unset.
    assert_eq!(state, vec![0, 0, 0, 0, 0, 0, 0, 0, 1, 0]);
    treasury_migrations::MigrateToV1::on_runtime_upgrade(&mut t, ROCKS_DB);
    assert_eq!(treasury_migrations::MigrateToV1::post_upgrade(&t, state), Ok(()));
    assert_eq!(
        treasury_migrations::MigrateToV1::post_upgrade(&t, vec![0, 0, 0, 0, 3, 0, 0, 0, 1, 0]),
        Err(treasury_migrations::TreasuryMigrationError::NextReleaseMonthDecreased)
    );
    assert_eq!(
        treasury_migrations::MigrateToV1::post_upgrade(&t, vec![0, 0, 0, 0, 0, 0, 0, 0, 2, 1]),
        Err(treasury_migrations::TreasuryMigrationError::DecodeFailed)
    );
    assert_eq!(
        treasury_migrations::MigrateToV1::post_upgrade(&t, vec![0, 0, 0, 0, 0, 0, 0, 0, 1, 1]),
        Err(treasury_migrations::TreasuryMigrationError::GenesisDistributionReset)
    );
    let w = treasury_migrations::MigrateToV2::on_runtime_upgrade(&mut t, ROCKS_DB);
    assert_eq!(t.storage_version, 2);
    assert_eq!(w, ROCKS_DB.reads_writes(1, 1));
}
