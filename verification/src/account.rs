//! Account identifiers: opaque 256-bit values compared only for equality.

use vstd::prelude::*;

verus! {

/// An account identifier, held as four 64-bit words (most significant first).
/// The module never inspects an identifier beyond testing equality.
#[derive(Clone, Copy, Debug, PartialEq, Eq, Structural)]
pub struct AccountId {
    pub w0: u64,
    pub w1: u64,
    pub w2: u64,
    pub w3: u64,
}

impl AccountId {
    /// Builds an identifier whose low word is `n` and whose other words are zero;
    /// convenient for hosts that number accounts densely.
    pub fn from_u64(n: u64) -> (r: AccountId)
        ensures
            r == (AccountId { w0: 0u64, w1: 0u64, w2: 0u64, w3: n }),
    {
        AccountId { w0: 0, w1: 0, w2: 0, w3: n }
    }
}

} // verus!
