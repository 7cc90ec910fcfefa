//! Feed-level flags, kept as an explicit one-byte bitset with named
//! predicates instead of raw bit arithmetic at the call sites.

use vstd::prelude::*;

verus! {

/// Bit: accumulation is performed by the validator, not by the program.
pub const ACCUMULATOR_V2: u8 = 0b1;

/// Bit: the program has already removed old messages from its message
/// buffer account.
pub const MESSAGE_BUFFER_CLEARED: u8 = 0b10;

/// The feed-level flag bitset stored in the account record.
#[derive(Clone, Copy, Debug, PartialEq, Eq)]
pub struct PriceAccountFlags {
    pub bits: u8,
}

impl PriceAccountFlags {
    /// Whether the validator, rather than the program, does accumulation.
    pub open spec fn spec_is_accumulator_v2(self) -> bool {
        self.bits & ACCUMULATOR_V2 != 0
    }

    /// Whether the message buffer account has already been cleared.
    pub open spec fn spec_is_message_buffer_cleared(self) -> bool {
        self.bits & MESSAGE_BUFFER_CLEARED != 0
    }

    pub fn is_accumulator_v2(&self) -> (r: bool)
        ensures
            r == self.spec_is_accumulator_v2(),
    {
        self.bits & ACCUMULATOR_V2 != 0
    }

    pub fn is_message_buffer_cleared(&self) -> (r: bool)
        ensures
            r == self.spec_is_message_buffer_cleared(),
    {
        self.bits & MESSAGE_BUFFER_CLEARED != 0
    }
}

} // verus!
