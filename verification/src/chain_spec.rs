//! The genesis of the Pezkuwi development chain: the PEZ asset, its allocation between the
//! treasury and the development account, the development account's HEZ, the GRANDPA
//! authority, and the chain's token properties.
use vstd::prelude::*;
use crate::primitives::Balance;
use crate::keys::{ed25519_public, ed25519_public_of, sr25519_public, sr25519_public_of};

verus! {

/// The whole PEZ supply of the development chain (5 billion PEZ with 12 decimals).
pub const DEV_TOTAL_SUPPLY: Balance = 5_000_000_000_000_000_000_000;

/// The PEZ of the development account (1 billion PEZ).
pub const DEV_ALICE_PEZ: Balance = 1_000_000_000_000_000_000_000;

/// The HEZ of the development account (10 billion HEZ).
pub const DEV_ALICE_HEZ: Balance = 10_000_000_000_000_000_000_000;

/// The id of the PEZ asset.
pub const PEZ_ASSET_ID: u32 = 1;

/// The token properties of a chain.
#[derive(Clone, Debug)]
pub struct ChainProperties {
    pub token_symbol: Vec<u8>,
    pub token_decimals: u8,
    pub ss58_format: u16,
}

/// One account of the genesis, with its balance.
#[derive(Clone, Copy, Debug)]
pub struct GenesisBalance {
    pub account: [u8; 32],
    pub amount: Balance,
}

/// The genesis patch of the development chain.
#[derive(Clone, Debug)]
pub struct DevGenesisPatch {
    /// The PEZ asset: id, owner, whether it is sufficient, and its minimum balance.
    pub asset_id: u32,
    pub asset_owner: [u8; 32],
    pub is_sufficient: bool,
    pub min_balance: Balance,
    /// The asset's metadata: name, symbol, decimals.
    pub asset_name: Vec<u8>,
    pub asset_symbol: Vec<u8>,
    pub asset_decimals: u8,
    /// The PEZ balances of the genesis accounts.
    pub asset_accounts: Vec<GenesisBalance>,
    pub next_asset_id: u32,
    /// The GRANDPA authorities, with their weights.
    pub grandpa_authorities: Vec<([u8; 32], u64)>,
    /// The HEZ balances of the genesis accounts.
    pub balances: Vec<GenesisBalance>,
}

/// The account of the pallet with id `id` on a chain of 32-byte accounts: `modl`, the id,
/// and zeros.
pub open spec fn pallet_account32(id: Seq<u8>) -> Seq<u8> {
    seq![109u8, 111u8, 100u8, 108u8] + id + Seq::new(20, |i: int| 0u8)
}

/// `into_account_truncating` of a pallet id on a chain of 32-byte accounts.
pub fn pallet_account_id32(id: [u8; 8]) -> (r: [u8; 32])
    ensures
        r@ == pallet_account32(id@),
{
    let mut out = [0u8; 32];
    out[0] = 109u8;
    out[1] = 111u8;
    out[2] = 100u8;
    out[3] = 108u8;
    let mut i: usize = 0;
    while i < 8
        invariant
            i <= 8,
            out@.len() == 32,
            out@[0] == 109u8,
            out@[1] == 111u8,
            out@[2] == 100u8,
            out@[3] == 108u8,
            forall|j: int| 0 <= j < i ==> out@[4 + j] == id@[j],
            forall|j: int| 12 <= j < 32 ==> out@[j] == 0u8,
        decreases 8 - i,
    {
        out[4 + i] = id[i];
        i += 1;
    }
    proof {
        assert(out@ =~= pallet_account32(id@));
    }
    out
}

/// `pezkuwi_properties`: the HEZ token, twelve decimals, SS58 format 42.
pub fn pezkuwi_properties() -> (p: ChainProperties)
    ensures
        p.token_symbol@ == seq![72u8, 69u8, 90u8],
        p.token_decimals == 12,
        p.ss58_format == 42,
{
    ChainProperties { token_symbol: vec![72u8, 69u8, 90u8], token_decimals: 12, ss58_format: 42 }
}

/// `versi_chain_spec_properties`: the VRS token, twelve decimals, SS58 format 42.
pub fn versi_chain_spec_properties() -> (p: ChainProperties)
    ensures
        p.token_symbol@ == seq![86u8, 82u8, 83u8],
        p.token_decimals == 12,
        p.ss58_format == 42,
{
    ChainProperties { token_symbol: vec![86u8, 82u8, 83u8], token_decimals: 12, ss58_format: 42 }
}

/// The genesis patch of the development chain: the PEZ asset owned by `alice`, the treasury
/// holding the supply less the development account's billion PEZ, `alice` holding that
/// billion and ten billion HEZ, and `alice_grandpa` the one GRANDPA authority.
pub fn dev_genesis_patch(alice: [u8; 32], alice_grandpa: [u8; 32], treasury: [u8; 32]) -> (g: DevGenesisPatch)
    ensures
        g.asset_id == PEZ_ASSET_ID,
        g.asset_owner == alice,
        g.is_sufficient,
        g.min_balance == 1,
        g.asset_name@ == seq![80u8, 101u8, 122u8],
        g.asset_symbol@ == seq![80u8, 69u8, 90u8],
        g.asset_decimals == 12,
        g.asset_accounts@.len() == 2,
        g.asset_accounts@[0].account == treasury,
        g.asset_accounts@[0].amount == DEV_TOTAL_SUPPLY - DEV_ALICE_PEZ,
        g.asset_accounts@[1].account == alice,
        g.asset_accounts@[1].amount == DEV_ALICE_PEZ,
        g.asset_accounts@[0].amount + g.asset_accounts@[1].amount == DEV_TOTAL_SUPPLY,
        g.next_asset_id == 2,
        g.grandpa_authorities@ == seq![(alice_grandpa, 1u64)],
        g.balances@.len() == 1,
        g.balances@[0].account == alice,
        g.balances@[0].amount == DEV_ALICE_HEZ,
{
    let treasury_pez = DEV_TOTAL_SUPPLY - DEV_ALICE_PEZ;
    DevGenesisPatch {
        asset_id: PEZ_ASSET_ID,
        asset_owner: alice,
        is_sufficient: true,
        min_balance: 1,
        asset_name: vec![80u8, 101u8, 122u8],
        asset_symbol: vec![80u8, 69u8, 90u8],
        asset_decimals: 12,
        asset_accounts: vec![
            GenesisBalance { account: treasury, amount: treasury_pez },
            GenesisBalance { account: alice, amount: DEV_ALICE_PEZ },
        ],
        next_asset_id: 2,
        grandpa_authorities: vec![(alice_grandpa, 1u64)],
        balances: vec![GenesisBalance { account: alice, amount: DEV_ALICE_HEZ }],
    }
}

/// The kind of a chain.
#[derive(Clone, Copy, Debug, PartialEq, Eq, Structural)]
pub enum ChainType {
    Development,
    Local,
    Live,
}

/// The node's extensions of a chain specification: block numbers with known hashes, and
/// known bad block hashes.
#[derive(Clone, Debug)]
pub struct Extensions {
    pub fork_blocks: Vec<(u32, [u8; 32])>,
    pub bad_blocks: Vec<[u8; 32]>,
}

impl Default for Extensions {
    fn default() -> (e: Self)
        ensures
            e.fork_blocks@.len() == 0,
            e.bad_blocks@.len() == 0,
    {
        Extensions { fork_blocks: Vec::new(), bad_blocks: Vec::new() }
    }
}

/// What a chain specification of a Pezkuwi chain says besides its runtime code: its name,
/// id, kind, the runtime's genesis preset, the network protocol id, the token properties,
/// the node's extensions and, for the development chain, the genesis patch.
#[derive(Clone, Debug)]
pub struct ChainSpecInfo {
    pub name: String,
    pub id: String,
    pub chain_type: ChainType,
    pub genesis_preset: String,
    pub protocol_id: String,
    pub properties: ChainProperties,
    pub extensions: Extensions,
    pub genesis_patch: Option<DevGenesisPatch>,
}

/// Whether `c` is the chain specification with `name`, `id`, kind `t`, genesis preset
/// `preset`, protocol id `pezkuwi`, the HEZ properties and empty extensions.
pub open spec fn is_pezkuwi_spec(c: ChainSpecInfo, name: Seq<char>, id: Seq<char>, t: ChainType, preset: Seq<char>) -> bool {
    &&& c.name@ == name
    &&& c.id@ == id
    &&& c.chain_type == t
    &&& c.genesis_preset@ == preset
    &&& c.protocol_id@ == "pezkuwi"@
    &&& c.properties.token_symbol@ == seq![72u8, 69u8, 90u8]
    &&& c.properties.token_decimals == 12
    &&& c.properties.ss58_format == 42
    &&& c.extensions.fork_blocks@.len() == 0
    &&& c.extensions.bad_blocks@.len() == 0
}

fn pezkuwi_spec(name: &str, id: &str, chain_type: ChainType, preset: &str) -> (c: ChainSpecInfo)
    ensures
        is_pezkuwi_spec(c, name@, id@, chain_type, preset@),
        c.genesis_patch is None,
{
    ChainSpecInfo {
        name: name.to_owned(),
        id: id.to_owned(),
        chain_type,
        genesis_preset: preset.to_owned(),
        protocol_id: "pezkuwi".to_owned(),
        properties: pezkuwi_properties(),
        extensions: Extensions::default(),
        genesis_patch: None,
    }
}

/// `pezkuwichain_production_config`: the live PezkuwiChain.
pub fn pezkuwichain_production_config() -> (c: ChainSpecInfo)
    ensures
        is_pezkuwi_spec(c, "PezkuwiChain"@, "pezkuwichain"@, ChainType::Live, "production"@),
        c.genesis_patch is None,
{
    pezkuwi_spec("PezkuwiChain", "pezkuwichain", ChainType::Live, "production")
}

/// `pezkuwichain_beta_testnet_config`: the live beta testnet.
pub fn pezkuwichain_beta_testnet_config() -> (c: ChainSpecInfo)
    ensures
        is_pezkuwi_spec(c, "PezkuwiChain Beta Testnet"@, "pezkuwichain_beta_testnet"@, ChainType::Live, "beta_testnet"@),
        c.genesis_patch is None,
{
    pezkuwi_spec("PezkuwiChain Beta Testnet", "pezkuwichain_beta_testnet", ChainType::Live, "beta_testnet")
}

/// `pezkuwichain_local_testnet_config`: the local testnet.
pub fn pezkuwichain_local_testnet_config() -> (c: ChainSpecInfo)
    ensures
        is_pezkuwi_spec(c, "Pezkuwi Local Testnet"@, "pezkuwi_local_testnet"@, ChainType::Local, "local_testnet"@),
        c.genesis_patch is None,
{
    pezkuwi_spec("Pezkuwi Local Testnet", "pezkuwi_local_testnet", ChainType::Local, "local_testnet")
}

/// `pezkuwichain_real_testnet_config`: deprecated; it gives the beta testnet.
pub fn pezkuwichain_real_testnet_config() -> (c: ChainSpecInfo)
    ensures
        is_pezkuwi_spec(c, "PezkuwiChain Beta Testnet"@, "pezkuwichain_beta_testnet"@, ChainType::Live, "beta_testnet"@),
        c.genesis_patch is None,
{
    pezkuwichain_beta_testnet_config()
}

/// `pezkuwichain_development_config`: the development chain, with `//Alice` as the
/// development account (its sr25519 key) and GRANDPA authority (its ed25519 key), and the
/// PEZ treasury at the account of the pallet id `treasury_pallet_id` of the runtime. Fails
/// when a key cannot be derived, which `//Alice` always can.
pub fn pezkuwichain_development_config(treasury_pallet_id: [u8; 8]) -> (r: Result<ChainSpecInfo, String>)
    ensures
        r is Ok,
        match r {
            Ok(c) => {
                &&& is_pezkuwi_spec(c, "Pezkuwi Development"@, "pezkuwichain_dev"@, ChainType::Development, "development"@)
                &&& sr25519_public_of("//Alice"@) matches Some(alice)
                &&& ed25519_public_of("//Alice"@) matches Some(grandpa)
                &&& c.genesis_patch matches Some(g)
                &&& g.asset_owner@ == alice
                &&& g.asset_accounts@.len() == 2
                &&& g.asset_accounts@[0].account@ == pallet_account32(treasury_pallet_id@)
                &&& g.asset_accounts@[0].amount == DEV_TOTAL_SUPPLY - DEV_ALICE_PEZ
                &&& g.asset_accounts@[1].account@ == alice
                &&& g.asset_accounts@[1].amount == DEV_ALICE_PEZ
                &&& g.grandpa_authorities@.len() == 1
                &&& g.grandpa_authorities@[0].0@ == grandpa
                &&& g.grandpa_authorities@[0].1 == 1
                &&& g.balances@.len() == 1
                &&& g.balances@[0].account@ == alice
                &&& g.balances@[0].amount == DEV_ALICE_HEZ
                &&& g.asset_id == PEZ_ASSET_ID && g.next_asset_id == 2 && g.min_balance == 1 && g.is_sufficient
                &&& g.asset_name@ == seq![80u8, 101u8, 122u8]
                &&& g.asset_symbol@ == seq![80u8, 69u8, 90u8]
                &&& g.asset_decimals == 12
            },
            Err(_) => sr25519_public_of("//Alice"@) is None || ed25519_public_of("//Alice"@) is None,
        },
{
    let alice = match sr25519_public("//Alice") {
        Some(k) => k,
        None => return Err("no sr25519 key for //Alice".to_owned()),
    };
    let grandpa = match ed25519_public("//Alice") {
        Some(k) => k,
        None => return Err("no ed25519 key for //Alice".to_owned()),
    };
    let treasury = pallet_account_id32(treasury_pallet_id);
    let patch = dev_genesis_patch(alice, grandpa, treasury);
    let mut c = pezkuwi_spec("Pezkuwi Development", "pezkuwichain_dev", ChainType::Development, "development");
    c.genesis_patch = Some(patch);
    Ok(c)
}

} // verus!
