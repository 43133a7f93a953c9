//! Addresses and account handles.
//!
//! The processor works on plain-value models of the runtime's handles: an
//! address is 32 raw bytes, and an account handle carries the address plus
//! the two flags the account-list contract speaks of. The surrounding host
//! converts its own richer handle type to and from these.

use vstd::prelude::*;

verus! {

/// A 32-byte address identifying an account or a program.
#[derive(Clone, Copy, Debug, PartialEq, Eq, Hash)]
pub struct Pubkey {
    /// The raw address bytes.
    pub bytes: [u8; 32],
}

/// One entry of the account list an instruction is built with: which
/// account takes part, and in what role.
#[derive(Clone, Copy, Debug, PartialEq, Eq)]
pub struct AccountMeta {
    /// The account's address.
    pub pubkey: Pubkey,
    /// Whether the account must have authorized (signed) the call.
    pub is_signer: bool,
    /// Whether the called program may mutate the account.
    pub is_writable: bool,
}

impl AccountMeta {
    /// A writable entry.
    pub fn new(pubkey: Pubkey, is_signer: bool) -> (r: AccountMeta)
        ensures
            r == (AccountMeta { pubkey, is_signer, is_writable: true }),
    {
        AccountMeta { pubkey, is_signer, is_writable: true }
    }

    /// A read-only entry.
    pub fn new_readonly(pubkey: Pubkey, is_signer: bool) -> (r: AccountMeta)
        ensures
            r == (AccountMeta { pubkey, is_signer, is_writable: false }),
    {
        AccountMeta { pubkey, is_signer, is_writable: false }
    }
}

/// An account handle as the processor sees it during one call: the fields
/// of the runtime's handle that dispatch reads. The caller owns the list of
/// these; the processor borrows it for the duration of one call.
#[derive(Clone, Copy, Debug, PartialEq, Eq)]
pub struct AccountInfo {
    /// The account's address.
    pub key: Pubkey,
    /// Whether the account authorized (signed) the enclosing call.
    pub is_signer: bool,
    /// Whether the account was supplied as writable.
    pub is_writable: bool,
}

} // verus!
