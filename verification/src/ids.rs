//! Account identities as plain values.
//!
//! Every participant of the system — an authority, a player, a token mint, a
//! treasury wallet — is addressed by a 32-byte key. The engine never inspects
//! a key beyond comparing it for equality, so a key is modelled as four
//! little-endian 64-bit words. Callers that hold keys in another form convert
//! at the boundary.

use vstd::prelude::*;

verus! {

/// A 32-byte account key, split into four 64-bit words (`w0` holds the first
/// eight bytes, little-endian, and so on).
#[derive(Clone, Copy, PartialEq, Eq, Structural, Debug, Hash)]
pub struct AccountId {
    pub w0: u64,
    pub w1: u64,
    pub w2: u64,
    pub w3: u64,
}

impl AccountId {
    /// Builds a key from its four words.
    pub fn new(w0: u64, w1: u64, w2: u64, w3: u64) -> (r: AccountId)
        ensures
            r == (AccountId { w0, w1, w2, w3 }),
    {
        AccountId { w0, w1, w2, w3 }
    }
}

} // verus!
