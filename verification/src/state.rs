use vstd::prelude::*;
use vstd::std_specs::cmp::PartialEqSpec;

verus! {

/// A 32-byte account address.
#[derive(Debug, Clone, Copy, Hash)]
pub struct Pubkey {
    pub bytes: [u8; 32],
}

impl PartialEq for Pubkey {
    fn eq(&self, other: &Self) -> (same: bool) {
        let mut i: usize = 0;
        while i < 32
            invariant
                i <= 32,
                forall|j: int| 0 <= j < i ==> self.bytes[j] == other.bytes[j],
            decreases 32 - i,
        {
            if self.bytes[i] != other.bytes[i] {
                return false;
            }
            i = i + 1;
        }
        assert(self.bytes =~= other.bytes);
        true
    }
}

impl vstd::std_specs::cmp::PartialEqSpecImpl for Pubkey {
    open spec fn obeys_eq_spec() -> bool {
        true
    }

    open spec fn eq_spec(&self, other: &Self) -> bool {
        self.bytes == other.bytes
    }
}

impl Eq for Pubkey {
}

impl Pubkey {
    /// The address made of the given bytes.
    pub fn new_from_array(bytes: [u8; 32]) -> (k: Pubkey)
        ensures
            k.bytes == bytes,
    {
        Pubkey { bytes }
    }

    /// The bytes of the address.
    pub fn to_bytes(&self) -> (b: [u8; 32])
        ensures
            b == self.bytes,
    {
        self.bytes
    }
}

/// The pool's configuration account.
#[derive(Debug, Clone, Copy, PartialEq, Eq)]
pub struct Config {
    /// Seed to be able to create different pools / configs.
    pub seed: u64,
    /// Admin that can lock the pool (`None` = immutable).
    pub authority: Option<Pubkey>,
    /// Token X.
    pub mint_x: Pubkey,
    /// Token Y.
    pub mint_y: Pubkey,
    /// Total swap fee in basis points (10_000 = 100%).
    pub fee: u16,
    /// Protocol fee recipient (owner of the treasury token accounts).
    pub treasury: Pubkey,
    /// If true, deposit / withdraw / swap are disabled.
    pub locked: bool,
    /// Bump seed for the config account.
    pub config_bump: u8,
    /// Bump seed for the LP token.
    pub lp_bump: u8,
}

/// A token account: its address and the amount it holds.
#[derive(Debug, Clone, Copy, PartialEq, Eq)]
pub struct TokenAccount {
    pub key: Pubkey,
    pub amount: u64,
}

/// A token mint: its address and its supply.
#[derive(Debug, Clone, Copy, PartialEq, Eq)]
pub struct Mint {
    pub key: Pubkey,
    pub supply: u64,
}

/// Two addresses compare equal exactly when all their bytes are equal.
pub proof fn law_pubkey_equality(a: Pubkey, b: Pubkey)
    ensures
        a.eq_spec(&b) <==> (forall|i: int| 0 <= i < 32 ==> a.bytes[i] == b.bytes[i]),
        a.eq_spec(&b) <==> a == b,
{
    assert((forall|i: int| 0 <= i < 32 ==> a.bytes[i] == b.bytes[i]) ==> a.bytes =~= b.bytes);
}

} // verus!
