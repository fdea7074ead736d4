//! The SCALE encoding of the fixed-width values that the pallets encode, through the
//! `parity-scale-codec` crate, and the hashing and trie-proof checks of the reward claims,
//! through `sp-core` and `sp-trie`.
use vstd::prelude::*;
use parity_scale_codec::{Decode, Encode};
use crate::primitives::le_value;

verus! {

/// The `n` little-endian bytes of `x` (its lowest `n` bytes).
pub open spec fn le_bytes(x: nat, n: nat) -> Seq<u8>
    decreases n,
{
    if n == 0 {
        Seq::empty()
    } else {
        seq![(x % 256) as u8] + le_bytes(x / 256, (n - 1) as nat)
    }
}

/// The little-endian value of bytes `lo .. lo + n` of `b`.
pub open spec fn le_at(b: Seq<u8>, lo: int, n: int) -> nat {
    le_value(b.subrange(lo, lo + n)) as nat
}

/// `256` to the power `n`.
pub open spec fn pow256(n: nat) -> nat
    decreases n,
{
    if n == 0 {
        1
    } else {
        256 * pow256((n - 1) as nat)
    }
}

/// Little-endian bytes have the length asked for.
pub proof fn lemma_le_bytes_len(x: nat, n: nat)
    ensures
        le_bytes(x, n).len() == n,
    decreases n,
{
    if n > 0 {
        lemma_le_bytes_len(x / 256, (n - 1) as nat);
    }
}

/// Reading back the `n` little-endian bytes of a value below `256^n` gives the value.
pub proof fn lemma_le_round_trip(x: nat, n: nat)
    requires
        x < pow256(n),
    ensures
        le_value(le_bytes(x, n)) == x,
    decreases n,
{
    if n > 0 {
        let m = (n - 1) as nat;
        assert(x / 256 < pow256(m));
        lemma_le_round_trip(x / 256, m);
        assert(le_bytes(x, n).drop_first() =~= le_bytes(x / 256, m));
    }
}

/// The value of four little-endian bytes at position `lo` of `a + le_bytes(x, 4) + b`,
/// where `a` has `lo` bytes, is `x`.
pub proof fn lemma_le_at_u32(a: Seq<u8>, x: u32, b: Seq<u8>)
    ensures
        le_at(a + le_bytes(x as nat, 4) + b, a.len() as int, 4) == x,
{
    lemma_le_bytes_len(x as nat, 4);
    assert(pow256(4) == 0x1_0000_0000) by {
        reveal_with_fuel(pow256, 5);
    }
    lemma_le_round_trip(x as nat, 4);
    let s = a + le_bytes(x as nat, 4) + b;
    assert(s.subrange(a.len() as int, a.len() as int + 4) =~= le_bytes(x as nat, 4));
}

/// SCALE-encodes the pair `(account, amount)`: the eight little-endian bytes of the account
/// followed by the sixteen of the amount (`parity_scale_codec::Encode::encode`).
#[verifier::external_body]
pub(crate) fn encode_account_amount(account: u64, amount: u128) -> (r: Vec<u8>)
    ensures
        r@ == le_bytes(account as nat, 8) + le_bytes(amount as nat, 16),
{
    (account, amount).encode()
}

/// SCALE-encodes three `u32` counts: four little-endian bytes each
/// (`parity_scale_codec::Encode::encode`).
#[verifier::external_body]
pub(crate) fn encode_three_counts(a: u32, b: u32, c: u32) -> (r: Vec<u8>)
    ensures
        r@ == le_bytes(a as nat, 4) + le_bytes(b as nat, 4) + le_bytes(c as nat, 4),
{
    (a, b, c).encode()
}

/// SCALE-decodes three `u32` counts from the start of `bytes`
/// (`parity_scale_codec::Decode::decode`): none when fewer than twelve bytes are given.
#[verifier::external_body]
pub(crate) fn decode_three_counts(bytes: &[u8]) -> (r: Option<(u32, u32, u32)>)
    ensures
        bytes@.len() < 12 ==> r is None,
        bytes@.len() >= 12 ==> r == Some((
            le_at(bytes@, 0, 4) as u32,
            le_at(bytes@, 4, 4) as u32,
            le_at(bytes@, 8, 4) as u32,
        )),
{
    <(u32, u32, u32)>::decode(&mut &bytes[..]).ok()
}

/// SCALE-encodes two `u32` values and two flags: four little-endian bytes for each value and
/// one byte (0 or 1) for each flag (`parity_scale_codec::Encode::encode`).
#[verifier::external_body]
pub(crate) fn encode_counts_and_flags(a: u32, b: u32, c: bool, d: bool) -> (r: Vec<u8>)
    ensures
        r@ == le_bytes(a as nat, 4) + le_bytes(b as nat, 4) + seq![if c { 1u8 } else { 0u8 }]
            + seq![if d { 1u8 } else { 0u8 }],
{
    (a, b, c, d).encode()
}

/// SCALE-decodes two `u32` values and two flags from the start of `bytes`
/// (`parity_scale_codec::Decode::decode`): none when fewer than ten bytes are given or a flag
/// byte is neither 0 nor 1.
#[verifier::external_body]
pub(crate) fn decode_counts_and_flags(bytes: &[u8]) -> (r: Option<(u32, u32, bool, bool)>)
    ensures
        (bytes@.len() < 10 || bytes@[8] > 1 || bytes@[9] > 1) ==> r is None,
        !(bytes@.len() < 10 || bytes@[8] > 1 || bytes@[9] > 1) ==> r == Some((
            le_at(bytes@, 0, 4) as u32,
            le_at(bytes@, 4, 4) as u32,
            bytes@[8] == 1,
            bytes@[9] == 1,
        )),
{
    <(u32, u32, bool, bool)>::decode(&mut &bytes[..]).ok()
}

/// The BLAKE2b-256 hash of `data`.
pub uninterp spec fn blake2_256_of(data: Seq<u8>) -> Seq<u8>;

/// Hashes `data` with BLAKE2b-256 (`Blake2Hasher::hash` of `sp-core`); the result is the
/// hash of `data` and depends on nothing else.
#[verifier::external_body]
pub(crate) fn blake2_256(data: &[u8]) -> (r: [u8; 32])
    ensures
        r@ == blake2_256_of(data@),
{
    <sp_core::Blake2Hasher as sp_core::Hasher>::hash(data).0
}

/// Whether `proof` proves, against the trie root `root`, that `key` holds `value`.
pub uninterp spec fn trie_proof_verifies(root: Seq<u8>, proof: Seq<Seq<u8>>, key: Seq<u8>, value: Seq<u8>) -> bool;

/// Checks a trie proof of the inclusion of the pair (`key`, `value`) under `root`, in the
/// layout without external values and with BLAKE2b-256 hashing
/// (`sp_trie::verify_trie_proof::<LayoutV0<Blake2Hasher>, ..>` answering `Ok`). The answer
/// depends on the four arguments alone.
#[verifier::external_body]
pub(crate) fn verify_trie_proof_v0(root: &[u8; 32], proof: &Vec<Vec<u8>>, key: &[u8; 32], value: &[u8; 32]) -> (r: bool)
    ensures
        r == trie_proof_verifies(root@, proof.deep_view(), key@, value@),
{
    let items = [(&key[..], Some(&value[..]))];
    sp_trie::verify_trie_proof::<sp_trie::LayoutV0<sp_core::Blake2Hasher>, _, _, _>(
        &sp_core::H256(*root),
        proof,
        &items,
    ).is_ok()
}

} // verus!
