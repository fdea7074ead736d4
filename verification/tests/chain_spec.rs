use pezkuwi_pallets::chain_spec::{
    pezkuwichain_beta_testnet_config, pezkuwichain_development_config, pezkuwichain_local_testnet_config,
    pezkuwichain_production_config, pezkuwichain_real_testnet_config, ChainType,
    dev_genesis_patch, pallet_account_id32, pezkuwi_properties, versi_chain_spec_properties, DEV_ALICE_HEZ, DEV_ALICE_PEZ, DEV_TOTAL_SUPPLY,
    PEZ_ASSET_ID,
};

/// Every Pezkuwi chain specification carries the same token properties.
#[test]
fn test_all_chain_specs_have_properties() {
    let specs = vec![
        pezkuwichain_development_config(*b"py/trsry").unwrap(),
        pezkuwichain_local_testnet_config(),
        pezkuwichain_beta_testnet_config(),
        pezkuwichain_production_config(),
        pezkuwichain_real_testnet_config(),
    ];
    for spec in specs {
        let properties = spec.properties;
        assert_eq!(String::from_utf8(properties.token_symbol).unwrap(), "HEZ");
        assert_eq!(properties.token_decimals, 12);
        assert_eq!(properties.ss58_format, 42);
    }
    let properties = pezkuwi_properties();
    assert_eq!(String::from_utf8(properties.token_symbol).unwrap(), "HEZ");
}

#[test]
fn test_dev_chain_spec_loads() {
    let chain_spec = pezkuwichain_development_config(*b"py/trsry").expect("Dev chain spec should load");
    assert_eq!(chain_spec.name, "Pezkuwi Development");
    assert_eq!(chain_spec.id, "pezkuwichain_dev");
    assert_eq!(chain_spec.chain_type, ChainType::Development);
}

#[test]
fn test_local_testnet_chain_spec_loads() {
    let chain_spec = pezkuwichain_local_testnet_config();
    assert_eq!(chain_spec.name, "Pezkuwi Local Testnet");
    assert_eq!(chain_spec.id, "pezkuwi_local_testnet");
    assert_eq!(chain_spec.chain_type, ChainType::Local);
}

#[test]
fn test_beta_testnet_chain_spec_loads() {
    let chain_spec = pezkuwichain_beta_testnet_config();
    assert_eq!(chain_spec.name, "PezkuwiChain Beta Testnet");
    assert_eq!(chain_spec.id, "pezkuwichain_beta_testnet");
    assert_eq!(chain_spec.chain_type, ChainType::Live);
}

#[test]
fn test_production_chain_spec_loads() {
    let chain_spec = pezkuwichain_production_config();
    assert_eq!(chain_spec.name, "PezkuwiChain");
    assert_eq!(chain_spec.id, "pezkuwichain");
    assert_eq!(chain_spec.chain_type, ChainType::Live);
}

#[test]
fn test_protocol_ids_correct() {
    let dev = pezkuwichain_development_config(*b"py/trsry").expect("Dev should load");
    assert_eq!(dev.protocol_id, "pezkuwi");
    let beta = pezkuwichain_beta_testnet_config();
    assert_eq!(beta.protocol_id, "pezkuwi");
    let production = pezkuwichain_production_config();
    assert_eq!(production.protocol_id, "pezkuwi");
}

#[test]
fn test_genesis_preset_names() {
    let dev = pezkuwichain_development_config(*b"py/trsry").expect("Dev should load");
    assert_eq!(dev.genesis_preset, "development");
    assert!(dev.genesis_patch.is_some());
    let local = pezkuwichain_local_testnet_config();
    assert_eq!(local.genesis_preset, "local_testnet");
    let beta = pezkuwichain_beta_testnet_config();
    assert_eq!(beta.genesis_preset, "beta_testnet");
}

#[test]
fn test_real_testnet_deprecated_redirect() {
    let real = pezkuwichain_real_testnet_config();
    let beta = pezkuwichain_beta_testnet_config();
    assert_eq!(real.name, beta.name);
    assert_eq!(real.id, beta.id);
    assert_eq!(real.chain_type, beta.chain_type);
    assert_eq!(real.genesis_preset, beta.genesis_preset);
}

#[test]
fn test_chain_spec_extensions() {
    let chain_spec = pezkuwichain_development_config(*b"py/trsry").expect("Dev chain spec should load");
    let extensions = chain_spec.extensions;
    assert!(extensions.fork_blocks.is_empty(), "Fork blocks should be empty initially");
    assert!(extensions.bad_blocks.is_empty(), "Bad blocks should be empty initially");
}

#[test]
fn dev_genesis_splits_the_pez_supply() {
    let alice = [1u8; 32];
    let grandpa = [2u8; 32];
    let treasury = pallet_account_id32(*b"py/trsry");
    let g = dev_genesis_patch(alice, grandpa, treasury);
    assert_eq!(g.asset_id, PEZ_ASSET_ID);
    assert_eq!(g.asset_owner, alice);
    assert!(g.is_sufficient);
    assert_eq!(g.min_balance, 1);
    assert_eq!(g.asset_name, b"Pez".to_vec());
    assert_eq!(g.asset_symbol, b"PEZ".to_vec());
    assert_eq!(g.asset_decimals, 12);
    assert_eq!(g.asset_accounts.len(), 2);
    assert_eq!(g.asset_accounts[0].account, treasury);
    assert_eq!(g.asset_accounts[0].amount, 4_000_000_000_000_000_000_000);
    assert_eq!(g.asset_accounts[1].account, alice);
    assert_eq!(g.asset_accounts[1].amount, DEV_ALICE_PEZ);
    assert_eq!(g.asset_accounts[0].amount + g.asset_accounts[1].amount, DEV_TOTAL_SUPPLY);
    assert_eq!(g.next_asset_id, 2);
    assert_eq!(g.grandpa_authorities, vec![(grandpa, 1)]);
    assert_eq!(g.balances.len(), 1);
    assert_eq!(g.balances[0].account, alice);
    assert_eq!(g.balances[0].amount, DEV_ALICE_HEZ);
}

#[test]
fn pallet_accounts_are_modl_prefixed() {
    let a = pallet_account_id32(*b"py/trsry");
    assert_eq!(&a[..4], b"modl");
    assert_eq!(&a[4..12], b"py/trsry");
    assert!(a[12..].iter().all(|b| *b == 0));
}

#[test]
fn versi_properties() {
    let properties = versi_chain_spec_properties();
    assert_eq!(String::from_utf8(properties.token_symbol).unwrap(), "VRS");
    assert_eq!(properties.token_decimals, 12);
    assert_eq!(properties.ss58_format, 42);
}

#[test]
fn pezkuwi_chain_specs() {
    let prod = pezkuwichain_production_config();
    assert_eq!(prod.name, "PezkuwiChain");
    assert_eq!(prod.id, "pezkuwichain");
    assert_eq!(prod.chain_type, ChainType::Live);
    assert_eq!(prod.genesis_preset, "production");
    assert_eq!(prod.protocol_id, "pezkuwi");
    assert!(prod.genesis_patch.is_none());
    let local = pezkuwichain_local_testnet_config();
    assert_eq!(local.id, "pezkuwi_local_testnet");
    assert_eq!(local.name, "Pezkuwi Local Testnet");
    assert_eq!(local.chain_type, ChainType::Local);
    assert_eq!(pezkuwichain_beta_testnet_config().genesis_preset, "beta_testnet");
    assert_eq!(pezkuwichain_real_testnet_config().name, "PezkuwiChain Beta Testnet");
    assert_eq!(pezkuwichain_real_testnet_config().id, "pezkuwichain_beta_testnet");
}

#[test]
fn development_config_derives_alice() {
    let dev = pezkuwichain_development_config(*b"py/trsry").unwrap();
    assert_eq!(dev.name, "Pezkuwi Development");
    assert_eq!(dev.id, "pezkuwichain_dev");
    assert_eq!(dev.chain_type, ChainType::Development);
    assert_eq!(dev.protocol_id, "pezkuwi");
    assert_eq!(String::from_utf8(dev.properties.token_symbol.clone()).unwrap(), "HEZ");
    let g = dev.genesis_patch.unwrap();
    assert_eq!(g.asset_name, b"Pez".to_vec());
    assert_eq!(g.asset_symbol, b"PEZ".to_vec());
    assert_eq!(g.asset_decimals, 12);
    // The sr25519 public key of //Alice.
    let alice: [u8; 32] = [
        0xd4, 0x35, 0x93, 0xc7, 0x15, 0xfd, 0xd3, 0x1c, 0x61, 0x14, 0x1a, 0xbd, 0x04, 0xa9, 0x9f, 0xd6, 0x82, 0x2c,
        0x85, 0x58, 0x85, 0x4c, 0xcd, 0xe3, 0x9a, 0x56, 0x84, 0xe7, 0xa5, 0x6d, 0xa2, 0x7d,
    ];
    assert_eq!(g.asset_owner, alice);
    assert_eq!(g.balances[0].account, alice);
    assert_eq!(g.asset_accounts[0].account, pallet_account_id32(*b"py/trsry"));
    assert_ne!(g.grandpa_authorities[0].0, alice);
}
