//! The native system program, holder of the transfer capability.

use vstd::prelude::*;

use crate::account::Pubkey;

verus! {

/// The system program's well-known address: thirty-two zero bytes.
pub open spec fn spec_id() -> Pubkey {
    Pubkey {
        bytes: [
            0u8, 0, 0, 0, 0, 0, 0, 0, 0, 0, 0, 0, 0, 0, 0, 0, 0, 0, 0, 0, 0, 0, 0, 0, 0, 0, 0, 0,
            0, 0, 0, 0,
        ],
    }
}

/// The address of the system program, whose transfer primitive this
/// program delegates to.
pub fn id() -> (r: Pubkey)
    ensures
        r == spec_id(),
{
    Pubkey {
        bytes: [
            0u8, 0, 0, 0, 0, 0, 0, 0, 0, 0, 0, 0, 0, 0, 0, 0, 0, 0, 0, 0, 0, 0, 0, 0, 0, 0, 0, 0,
            0, 0, 0, 0,
        ],
    }
}

} // verus!
