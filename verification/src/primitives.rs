//! Account, balance and origin types shared by every pallet.
use vstd::prelude::*;

verus! {

/// Accounts are identified by 64-bit integers, as in the pallets' test runtimes.
pub type AccountId = u64;

/// Balances of the native token and of the fungible assets.
pub type Balance = u128;

/// Block numbers.
pub type BlockNumber = u64;

/// The origin of a dispatched call.
#[derive(Clone, Copy, Debug, PartialEq, Eq, Structural)]
pub enum Origin {
    /// The root (sudo / governance) origin.
    Root,
    /// A call signed by an account.
    Signed(AccountId),
    /// An unsigned call.
    Unsigned,
}

/// The account that signed the call, if it was signed.
pub open spec fn signer_of(origin: Origin) -> Option<AccountId> {
    match origin {
        Origin::Signed(who) => Some(who),
        _ => None,
    }
}

/// `ensure_signed`: the signing account, or `None` for any other origin.
pub fn ensure_signed(origin: Origin) -> (r: Option<AccountId>)
    ensures
        r == signer_of(origin),
{
    match origin {
        Origin::Signed(who) => Some(who),
        _ => None,
    }
}

/// `ensure_root`: whether the origin is the root origin.
pub fn ensure_root(origin: Origin) -> (r: bool)
    ensures
        r == (origin == Origin::Root),
{
    match origin {
        Origin::Root => true,
        _ => false,
    }
}

/// The little-endian value of a byte sequence.
pub open spec fn le_value(bytes: Seq<u8>) -> int
    decreases bytes.len(),
{
    if bytes.len() == 0 {
        0
    } else {
        bytes[0] + 256 * le_value(bytes.drop_first())
    }
}

/// The bytes from which the account of a pallet is derived: the prefix `modl` followed by
/// the pallet identifier, truncated to the eight bytes of an account id.
pub open spec fn pallet_account_bytes(id: Seq<u8>) -> Seq<u8> {
    seq![109u8, 111u8, 100u8, 108u8, id[0], id[1], id[2], id[3]]
}

/// The account of the pallet with identifier `id` (`into_account_truncating`): the
/// little-endian decoding of `modl ++ id`, truncated to eight bytes.
pub open spec fn spec_pallet_account(id: Seq<u8>) -> AccountId {
    le_value(pallet_account_bytes(id)) as AccountId
}

/// The account that holds the funds of the pallet with identifier `id`.
pub fn pallet_account_id(id: [u8; 8]) -> (r: AccountId)
    ensures
        r as int == le_value(pallet_account_bytes(id@)),
        r == spec_pallet_account(id@),
{
    let b4 = id[0] as u64;
    let b5 = id[1] as u64;
    let b6 = id[2] as u64;
    let b7 = id[3] as u64;
    let v7: u64 = b7;
    let v6: u64 = b6 + 256 * v7;
    let v5: u64 = b5 + 256 * v6;
    let v4: u64 = b4 + 256 * v5;
    let v3: u64 = 108 + 256 * v4;
    let v2: u64 = 100 + 256 * v3;
    let v1: u64 = 111 + 256 * v2;
    let v0: u64 = 109 + 256 * v1;
    proof {
        let s = pallet_account_bytes(id@);
        assert(s.drop_first() =~= seq![111u8, 100u8, 108u8, id@[0], id@[1], id@[2], id@[3]]);
        assert(s.drop_first().drop_first() =~= seq![100u8, 108u8, id@[0], id@[1], id@[2], id@[3]]);
        assert(s.drop_first().drop_first().drop_first() =~= seq![108u8, id@[0], id@[1], id@[2], id@[3]]);
        assert(s.drop_first().drop_first().drop_first().drop_first() =~= seq![id@[0], id@[1], id@[2], id@[3]]);
        assert(seq![id@[0], id@[1], id@[2], id@[3]].drop_first() =~= seq![id@[1], id@[2], id@[3]]);
        assert(seq![id@[1], id@[2], id@[3]].drop_first() =~= seq![id@[2], id@[3]]);
        assert(seq![id@[2], id@[3]].drop_first() =~= seq![id@[3]]);
        assert(seq![id@[3]].drop_first() =~= Seq::<u8>::empty());
        reveal_with_fuel(le_value, 9);
        assert(le_value(seq![id@[3]]) == v7);
        assert(le_value(seq![id@[2], id@[3]]) == v6);
        assert(le_value(seq![id@[1], id@[2], id@[3]]) == v5);
        assert(le_value(seq![id@[0], id@[1], id@[2], id@[3]]) == v4);
        assert(le_value(s.drop_first().drop_first().drop_first()) == v3);
        assert(le_value(s.drop_first().drop_first()) == v2);
        assert(le_value(s.drop_first()) == v1);
        assert(le_value(s) == v0);
    }
    v0
}

/// The weight of a call or hook: computation time and proof size.
#[derive(Clone, Copy, Debug, PartialEq, Eq, Structural)]
pub struct Weight {
    pub ref_time: u64,
    pub proof_size: u64,
}

/// The weight of one storage read and of one storage write.
#[derive(Clone, Copy, Debug, PartialEq, Eq, Structural)]
pub struct RuntimeDbWeight {
    pub read: u64,
    pub write: u64,
}

/// A product or sum of weights, saturated at the largest `u64`.
pub open spec fn saturate(x: int) -> u64 {
    if x > u64::MAX {
        u64::MAX
    } else {
        x as u64
    }
}

/// A sum saturated at the largest `u128`.
pub open spec fn saturate_u128(x: int) -> u128 {
    if x > u128::MAX {
        u128::MAX
    } else {
        x as u128
    }
}

/// `a * b`, saturated at the largest `u64`.
pub fn saturating_mul_u64(a: u64, b: u64) -> (r: u64)
    ensures
        r == saturate(a * b),
{
    match a.checked_mul(b) {
        Some(x) => x,
        None => u64::MAX,
    }
}

impl Weight {
    /// The component-wise sum of two weights, each component saturated.
    pub open spec fn plus(self, other: Weight) -> Weight {
        Weight {
            ref_time: saturate(self.ref_time + other.ref_time),
            proof_size: saturate(self.proof_size + other.proof_size),
        }
    }

    /// The weight of `ref_time` computation and `proof_size` proof.
    pub fn from_parts(ref_time: u64, proof_size: u64) -> (w: Weight)
        ensures
            w == (Weight { ref_time, proof_size }),
    {
        Weight { ref_time, proof_size }
    }

    /// The component-wise sum of two weights, each component saturated.
    pub fn saturating_add(self, other: Weight) -> (w: Weight)
        ensures
            w == self.plus(other),
    {
        Weight {
            ref_time: self.ref_time.saturating_add(other.ref_time),
            proof_size: self.proof_size.saturating_add(other.proof_size),
        }
    }

    /// Both components times `n`, each saturated.
    pub fn saturating_mul(self, n: u64) -> (w: Weight)
        ensures
            w == (Weight { ref_time: saturate(self.ref_time * n), proof_size: saturate(self.proof_size * n) }),
    {
        Weight { ref_time: saturating_mul_u64(self.ref_time, n), proof_size: saturating_mul_u64(self.proof_size, n) }
    }
}

/// A benchmarked weight: `ref_time` of computation and `proof_size` of proof, plus `r`
/// storage reads and `w` storage writes priced by `db`, the time saturated.
pub open spec fn benchmarked(ref_time: int, proof_size: u64, db: RuntimeDbWeight, r: u64, w: u64) -> Weight {
    Weight { ref_time: saturate(ref_time + db.read * r + db.write * w), proof_size }
}

/// `base` plus the weight of `r` reads and `w` writes priced by `db`.
pub fn with_db(base: Weight, db: RuntimeDbWeight, r: u64, w: u64) -> (out: Weight)
    ensures
        out == benchmarked(base.ref_time as int, base.proof_size, db, r, w),
{
    proof {
        assert(db.read * r >= 0) by (nonlinear_arith);
        assert(db.write * w >= 0) by (nonlinear_arith);
    }
    base.saturating_add(db.reads(r)).saturating_add(db.writes(w))
}

impl RuntimeDbWeight {
    /// The weight of `w` writes.
    pub open spec fn spec_writes(&self, w: u64) -> Weight {
        Weight { ref_time: saturate(self.write * w), proof_size: 0 }
    }

    /// The weight of `r` reads and `w` writes.
    pub open spec fn spec_reads_writes(&self, r: u64, w: u64) -> Weight {
        Weight {
            ref_time: saturate(saturate(self.read * r) + saturate(self.write * w)),
            proof_size: 0,
        }
    }

    /// The weight of `r` reads and `w` writes, every product and the sum saturated.
    pub fn reads_writes(&self, r: u64, w: u64) -> (out: Weight)
        ensures
            out == self.spec_reads_writes(r, w),
    {
        let read_weight = saturating_mul_u64(self.read, r);
        let write_weight = saturating_mul_u64(self.write, w);
        Weight { ref_time: read_weight.saturating_add(write_weight), proof_size: 0 }
    }

    /// The weight of `r` reads.
    pub open spec fn spec_reads(&self, r: u64) -> Weight {
        Weight { ref_time: saturate(self.read * r), proof_size: 0 }
    }

    /// The weight of `r` reads.
    pub fn reads(&self, r: u64) -> (out: Weight)
        ensures
            out == self.spec_reads(r),
    {
        Weight { ref_time: saturating_mul_u64(self.read, r), proof_size: 0 }
    }

    /// The weight of `w` writes.
    pub fn writes(&self, w: u64) -> (out: Weight)
        ensures
            out == self.spec_writes(w),
    {
        Weight { ref_time: saturating_mul_u64(self.write, w), proof_size: 0 }
    }
}

} // verus!
