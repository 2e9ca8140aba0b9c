//! The fixed-size values that blocks and state are made of.

use crate::bytes::be_value;
use vstd::prelude::*;

verus! {

/// An account address.
pub type Address = [u8; 20];

/// A hash, or a storage key, as 32 big-endian bytes.
pub type B256 = [u8; 32];

/// The 2048-bit filter over the logs of a block.
pub type Bloom = [u8; 256];

/// A 256-bit number as four 64-bit limbs, least significant first.
#[derive(Clone, Copy, Debug, PartialEq, Eq)]
pub struct U256 {
    pub limbs: [u64; 4],
}

impl U256 {
    /// The number that the limbs spell.
    pub open spec fn value(self) -> nat {
        (self.limbs[0] + self.limbs[1] * 0x1_0000_0000_0000_0000 + self.limbs[2]
            * 0x1_0000_0000_0000_0000_0000_0000_0000_0000 + self.limbs[3]
            * 0x1_0000_0000_0000_0000_0000_0000_0000_0000_0000_0000_0000_0000) as nat
    }
}

/// The storage key of a slot: `alloy_primitives::B256::from` of the slot number. It is the number
/// written out as 32 big-endian bytes.
#[verifier::external_body]
pub(crate) fn slot_key(slot: &U256) -> (key: B256)
    ensures
        be_value(key@) == slot.value(),
{
    alloy_primitives::B256::from(alloy_primitives::U256::from_limbs(slot.limbs)).0
}

} // verus!
