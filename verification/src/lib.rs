//! A minimal on-chain program built around cross-program invocation: it
//! decodes an instruction buffer into a typed command and re-invokes the
//! system transfer capability on behalf of the caller.
//!
//! The crate is split in two layers, leaves first:
//! - the codec ([`instruction`]): a total, deterministic mapping between a
//!   typed command and its byte-buffer wire form;
//! - the processor ([`processor`]): structural validation of the account
//!   list and exactly one delegated invocation, whose result is propagated
//!   verbatim.

pub mod account;
pub mod error;
pub mod instruction;
pub mod processor;
pub mod system_program;

use vstd::prelude::*;

use crate::account::Pubkey;

verus! {

/// The address this program is deployed under.
pub fn id() -> (r: Pubkey)
    ensures
        r == spec_id(),
{
    Pubkey {
        bytes: [
            11u8, 112, 67, 219, 182, 131, 97, 103, 59, 101, 56, 71, 164, 215, 151, 93, 142, 210,
            119, 70, 72, 130, 54, 189, 121, 193, 238, 75, 40, 28, 30, 15,
        ],
    }
}

/// The value `id` returns.
pub open spec fn spec_id() -> Pubkey {
    Pubkey {
        bytes: [
            11u8, 112, 67, 219, 182, 131, 97, 103, 59, 101, 56, 71, 164, 215, 151, 93, 142, 210,
            119, 70, 72, 130, 54, 189, 121, 193, 238, 75, 40, 28, 30, 15,
        ],
    }
}

} // verus!
