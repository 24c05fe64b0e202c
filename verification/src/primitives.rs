//! The chain's plain values, as far as a configuration holds them.

use vstd::prelude::*;

verus! {

/// An account's address: 20 bytes.
#[derive(Clone, Copy, Debug, PartialEq, Eq, Hash)]
pub struct Address(pub [u8; 20]);

/// A 256-bit hash.
#[derive(Clone, Copy, Debug, PartialEq, Eq, Hash)]
pub struct B256(pub [u8; 32]);

/// An unsigned 256-bit integer, as four 64-bit limbs, the least significant
/// first.
#[derive(Clone, Copy, Debug, PartialEq, Eq, Hash)]
pub struct U256(pub [u64; 4]);

impl View for U256 {
    type V = nat;

    /// The number that the limbs stand for.
    open spec fn view(&self) -> nat {
        joined(self.0[0], joined(self.0[1], joined(self.0[2], self.0[3] as nat)))
    }
}

/// The number whose lowest 64 bits are `low` and whose other bits are
/// `high`.
pub open spec fn joined(low: u64, high: nat) -> nat {
    low as nat + 0x1_0000_0000_0000_0000 * high
}

/// A number says what it was joined from.
proof fn lemma_joined_apart(low_a: u64, high_a: nat, low_b: u64, high_b: nat)
    requires
        joined(low_a, high_a) == joined(low_b, high_b),
    ensures
        low_a == low_b,
        high_a == high_b,
{
}

/// A `U256` is a number below 2^256, and the number says what the limbs are:
/// two values that stand for the same number are the same value.
pub proof fn lemma_u256_is_its_number(a: U256, b: U256)
    ensures
        a@ < 0x1_0000_0000_0000_0000_0000_0000_0000_0000_0000_0000_0000_0000_0000_0000_0000_0000,
        a@ == b@ <==> a == b,
{
    let top = a.0[3] as nat;
    let upper = joined(a.0[2], top);
    let middle = joined(a.0[1], upper);
    assert(top < 0x1_0000_0000_0000_0000);
    assert(upper < 0x1_0000_0000_0000_0000_0000_0000_0000_0000);
    assert(middle < 0x1_0000_0000_0000_0000_0000_0000_0000_0000_0000_0000_0000_0000);
    if a@ == b@ {
        lemma_joined_apart(
            a.0[0],
            joined(a.0[1], joined(a.0[2], a.0[3] as nat)),
            b.0[0],
            joined(b.0[1], joined(b.0[2], b.0[3] as nat)),
        );
        lemma_joined_apart(
            a.0[1],
            joined(a.0[2], a.0[3] as nat),
            b.0[1],
            joined(b.0[2], b.0[3] as nat),
        );
        lemma_joined_apart(a.0[2], a.0[3] as nat, b.0[2], b.0[3] as nat);
        assert(a.0 =~= b.0);
    }
}

/// The scalar of a secp256k1 private key: 32 bytes, the most significant
/// first. Whoever hands a key over has checked it; nothing here looks inside.
#[derive(Clone, PartialEq, Eq)]
pub struct SecretKey(pub [u8; 32]);

/// The rule set that the chain enforces, named by the hard fork that
/// brought it.
#[derive(Clone, Copy, Debug, PartialEq, Eq, Hash)]
pub enum SpecId {
    Frontier,
    FrontierThawing,
    Homestead,
    DaoFork,
    Tangerine,
    SpuriousDragon,
    Byzantium,
    Constantinople,
    Petersburg,
    Istanbul,
    MuirGlacier,
    Berlin,
    London,
    ArrowGlacier,
    GrayGlacier,
    Merge,
    Shanghai,
    Cancun,
    Latest,
}

/// The blob gas that a block has used and the excess it carries over.
#[derive(Clone, Copy, Debug, PartialEq, Eq)]
pub struct BlobGas {
    pub gas_used: u64,
    pub excess_gas: u64,
}

/// The state of an account: what it owns, how many transactions it has
/// sent, and its code, where it is a contract.
#[derive(Clone, Debug, PartialEq, Eq)]
pub struct AccountInfo {
    pub balance: U256,
    pub nonce: u64,
    pub code_hash: B256,
    pub code: Option<Vec<u8>>,
}

} // verus!
