use parity_scale_codec::Encode;
use pezkuwi_pallets::hemwelati_odul::{pallet_account, HemwelatiOdul, OdulError, OdulEvent};
use pezkuwi_pallets::ledger::Ledger;
use pezkuwi_pallets::primitives::Origin;
use sp_core::{Blake2Hasher, Hasher, H256};
use sp_trie::{generate_trie_proof, LayoutV0, MemoryDB, TrieDBMutBuilder, TrieMut};

struct Env {
    odul: HemwelatiOdul,
    balances: Ledger,
}

/// Balances 1000 and 500 for accounts 1 and 2, and 2000 for the pallet's account.
fn new_test_ext() -> Env {
    let mut balances = Ledger::new(1);
    assert_eq!(balances.mint_into(1, 1000), Ok(()));
    assert_eq!(balances.mint_into(2, 500), Ok(()));
    assert_eq!(balances.mint_into(pallet_account(), 2000), Ok(()));
    Env { odul: HemwelatiOdul::new(), balances }
}

fn repeat_byte(b: u8) -> [u8; 32] {
    [b; 32]
}

/// The leaf of a reward: the BLAKE2b-256 hash of the SCALE encoding of `(account, amount)`.
fn leaf(account: u64, amount: u128) -> [u8; 32] {
    <Blake2Hasher as Hasher>::hash(&(account, amount).encode()).0
}

/// A trie holding each leaf under itself, and the proof of the first leaf.
fn trie_with(leaves: &[[u8; 32]]) -> ([u8; 32], Vec<Vec<u8>>) {
    let mut db = MemoryDB::<Blake2Hasher>::default();
    let mut root = H256::default();
    {
        let mut t = TrieDBMutBuilder::<LayoutV0<Blake2Hasher>>::new(&mut db, &mut root).build();
        for l in leaves {
            t.insert(&l[..], &l[..]).unwrap();
        }
    }
    let key = leaves[0].to_vec();
    let proof = generate_trie_proof::<LayoutV0<Blake2Hasher>, _, _, _>(&db, root, &[key]).unwrap();
    (root.0, proof)
}

#[test]
fn start_new_period_works() {
    let mut env = new_test_ext();
    assert_eq!(env.odul.start_new_period(Origin::Root, repeat_byte(1)), Ok(()));
    assert_eq!(env.odul.next_period_id(), 1);
    assert!(env.odul.reward_periods(0).is_some());
    assert_eq!(env.odul.events.last(), Some(&OdulEvent::NewPeriodStarted(0)));
}

#[test]
fn complete_period_works() {
    let mut env = new_test_ext();
    assert_eq!(env.odul.start_new_period(Origin::Root, repeat_byte(1)), Ok(()));
    assert_eq!(env.odul.complete_period(Origin::Root, 0), Ok(()));
    assert!(env.odul.reward_periods(0).unwrap().completed);
    assert_eq!(env.odul.events.last(), Some(&OdulEvent::PeriodCompleted(0)));
}

#[test]
fn complete_period_fails_for_unknown_period() {
    let mut env = new_test_ext();
    assert_eq!(env.odul.complete_period(Origin::Root, 0), Err(OdulError::PeriodNotFound));
}

#[test]
fn claim_reward_fails_if_period_not_found() {
    let mut env = new_test_ext();
    assert_eq!(
        env.odul.claim_reward(Origin::Signed(1), &mut env.balances, 0, 1, 100, vec![]),
        Err(OdulError::PeriodNotFound)
    );
}

#[test]
fn claim_reward_fails_if_period_completed() {
    let mut env = new_test_ext();
    assert_eq!(env.odul.start_new_period(Origin::Root, repeat_byte(1)), Ok(()));
    assert_eq!(env.odul.complete_period(Origin::Root, 0), Ok(()));
    assert_eq!(
        env.odul.claim_reward(Origin::Signed(1), &mut env.balances, 0, 1, 100, vec![]),
        Err(OdulError::PeriodCompleted)
    );
}

#[test]
fn claim_reward_fails_for_invalid_proof() {
    let mut env = new_test_ext();
    assert_eq!(env.odul.start_new_period(Origin::Root, repeat_byte(1)), Ok(()));
    let proof: Vec<Vec<u8>> = vec![vec![1, 2, 3]];
    assert_eq!(
        env.odul.claim_reward(Origin::Signed(1), &mut env.balances, 0, 1, 50, proof),
        Err(OdulError::InvalidProof)
    );
    assert_eq!(env.balances.free_balance(1), 1000);
}

#[test]
fn claim_reward_works_simplified_proof_scenario() {
    let mut env = new_test_ext();
    let who = 1u64;
    let amount_to_claim = 50u128;
    let merkle_root = leaf(who, amount_to_claim);
    assert_eq!(env.odul.start_new_period(Origin::Root, merkle_root), Ok(()));
    let initial_pallet_balance = env.balances.free_balance(pallet_account());
    let initial_beneficiary_balance = env.balances.free_balance(who);
    assert_eq!(initial_pallet_balance, 2000);
    assert_eq!(initial_beneficiary_balance, 1000);
    // With the proof taken as valid, the claim pays out once.
    assert_eq!(env.odul.claim_reward_checked(Origin::Signed(who), &mut env.balances, 0, who, amount_to_claim, true), Ok(()));
    assert_eq!(env.odul.events.last(), Some(&OdulEvent::RewardClaimed(who, amount_to_claim)));
    assert_eq!(env.balances.free_balance(who), initial_beneficiary_balance + amount_to_claim);
    assert_eq!(env.balances.free_balance(pallet_account()), initial_pallet_balance - amount_to_claim);
    assert!(env.odul.claimed_rewards(0, who));
    assert_eq!(
        env.odul.claim_reward_checked(Origin::Signed(who), &mut env.balances, 0, who, amount_to_claim, true),
        Err(OdulError::AlreadyClaimed)
    );
}

#[test]
fn claim_reward_fails_if_already_claimed() {
    let mut env = new_test_ext();
    let mut inner = pezkuwi_pallets::storage::KeyMap::new();
    inner.insert(1, true);
    env.odul.claimed.insert(0, inner);
    assert_eq!(env.odul.start_new_period(Origin::Root, repeat_byte(1)), Ok(()));
    assert_eq!(
        env.odul.claim_reward(Origin::Signed(1), &mut env.balances, 0, 1, 50, vec![]),
        Err(OdulError::AlreadyClaimed)
    );
}

#[test]
fn claim_with_a_real_trie_proof_pays_once() {
    let mut env = new_test_ext();
    let (root, proof) = trie_with(&[leaf(2, 70), leaf(1, 30), leaf(9, 5)]);
    assert_eq!(env.odul.start_new_period(Origin::Root, root), Ok(()));
    // A proof for another reward, or another amount, does not verify.
    assert_eq!(
        env.odul.claim_reward(Origin::Signed(2), &mut env.balances, 0, 2, 71, proof.clone()),
        Err(OdulError::InvalidProof)
    );
    assert_eq!(
        env.odul.claim_reward(Origin::Signed(2), &mut env.balances, 0, 9, 5, proof.clone()),
        Err(OdulError::InvalidProof)
    );
    assert_eq!(env.odul.claim_reward(Origin::Signed(2), &mut env.balances, 0, 2, 70, proof.clone()), Ok(()));
    assert_eq!(env.balances.free_balance(2), 570);
    assert_eq!(env.balances.free_balance(pallet_account()), 1930);
    assert_eq!(
        env.odul.claim_reward(Origin::Signed(2), &mut env.balances, 0, 2, 70, proof),
        Err(OdulError::AlreadyClaimed)
    );
}

#[test]
fn only_root_manages_periods_and_claims_are_signed() {
    let mut env = new_test_ext();
    assert_eq!(env.odul.start_new_period(Origin::Signed(1), repeat_byte(1)), Err(OdulError::BadOrigin));
    assert_eq!(env.odul.start_new_period(Origin::Root, repeat_byte(1)), Ok(()));
    assert_eq!(env.odul.complete_period(Origin::Signed(1), 0), Err(OdulError::BadOrigin));
    assert_eq!(
        env.odul.claim_reward(Origin::Root, &mut env.balances, 0, 1, 10, vec![]),
        Err(OdulError::BadOrigin)
    );
    assert_eq!(env.odul.get_account_from_target_event(&OdulEvent::PeriodCompleted(0)), None);
}
