use vstd::prelude::*;

verus! {

/// A 32-byte account address, held as two 128-bit halves: identifies admins, oracle
/// authorities, policy holders and beneficiaries.
#[derive(Debug, Clone, Copy, PartialEq, Eq, Structural)]
pub struct Pubkey {
    /// The first sixteen bytes, big-endian.
    pub high: u128,
    /// The last sixteen bytes, big-endian.
    pub low: u128,
}

impl Pubkey {
    /// The all-zero address, which stands for "not set".
    pub fn default_key() -> (r: Pubkey)
        ensures
            r == Self::spec_default(),
    {
        Pubkey { high: 0, low: 0 }
    }

    pub open spec fn spec_default() -> Pubkey {
        Pubkey { high: 0, low: 0 }
    }
}

} // verus!
