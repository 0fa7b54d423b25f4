//! Account addresses.

use vstd::prelude::*;

verus! {

/// Number of bytes in an account address.
pub const ADDRESS_LEN: usize = 32;

/// The address of an account on the ledger: 32 opaque bytes.
///
/// The program never looks inside an address. It copies the address of the
/// caller into the entry that the caller submits.
#[derive(Clone, Copy, Debug, PartialEq, Eq, Hash)]
pub struct Address {
    pub bytes: [u8; 32],
}

impl Address {
    /// The address whose bytes are all zero, as found in storage that was
    /// allocated and never written.
    pub open spec fn zeroed() -> Address {
        Address { bytes: vstd::array::spec_array_fill_for_copy_type::<u8, 32>(0u8) }
    }

    /// True of an address whose bytes are all zero.
    pub open spec fn is_zero(self) -> bool {
        forall|i: int| 0 <= i < 32 ==> self.bytes[i] == 0u8
    }

    /// Returns the all-zero address.
    pub fn zero() -> (address: Address)
        ensures
            address == Address::zeroed(),
            address.is_zero(),
    {
        Address { bytes: [0u8; 32] }
    }
}

} // verus!
