//! Identity keys: 32-byte public identities of authorities, issuers and
//! recipients, held as four 64-bit limbs.

use vstd::prelude::*;

verus! {

/// A 256-bit identity key, as used by the surrounding ledger platform for
/// authorities, issuers, recipients and token mints. The 32 bytes of a
/// platform key are carried as four 64-bit limbs, most significant first.
#[derive(Clone, Copy, Debug, PartialEq, Eq, Structural)]
pub struct Pubkey {
    pub w0: u64,
    pub w1: u64,
    pub w2: u64,
    pub w3: u64,
}

impl Pubkey {
    /// Build a key from its four 64-bit limbs.
    pub fn new(w0: u64, w1: u64, w2: u64, w3: u64) -> (r: Pubkey)
        ensures
            r == (Pubkey { w0, w1, w2, w3 }),
    {
        Pubkey { w0, w1, w2, w3 }
    }
}

} // verus!
