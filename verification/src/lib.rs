//! Verified state machines of the Pezkuwi pallets.
//!
//! Each pallet keeps its storage in a struct of its own; the dispatchable calls are methods
//! that take the caller's origin and the current block number as plain values, and every
//! call that fails leaves the state it was given untouched, as a FRAME transaction does.
pub mod primitives;
pub mod storage;
pub mod ledger;
pub mod identity_kyc;
pub mod referral;
pub mod nfts;
pub mod tiki;
pub mod pez_treasury;
pub mod staking_score;
pub mod trust;
pub mod pez_rewards;
pub mod token_wrapper;
pub mod perwerde;
pub mod scale;
pub mod hemwelati_odul;
pub mod tiki_migrations;
pub mod treasury_migrations;
pub mod keys;
pub mod chain_spec;

use vstd::prelude::*;

verus! {

} // verus!
