//! A 32-byte account identity.

use vstd::prelude::*;

verus! {

/// A 32-byte identity of an account on the host chain. The account record
/// stores such identities for the sibling product account, the next price
/// account, and each publisher, and the message payloads carry one as the
/// feed identity.
#[derive(Clone, Copy, Debug, PartialEq, Eq)]
pub struct Pubkey {
    pub bytes: [u8; 32],
}

impl Pubkey {
    pub fn new_from_array(bytes: [u8; 32]) -> (k: Pubkey)
        ensures
            k.bytes == bytes,
    {
        Pubkey { bytes }
    }

    /// The raw bytes of the identity.
    pub fn to_bytes(self) -> (r: [u8; 32])
        ensures
            r == self.bytes,
    {
        self.bytes
    }
}

} // verus!
