//! Instruction types and their wire format.
//!
//! The codec is a total, deterministic mapping between a typed command and
//! a byte buffer: one tag byte naming the variant, then each field in
//! declaration order as a fixed-width little-endian integer. The format is
//! closed: an unrecognized tag is always rejected, never ignored. Trailing
//! bytes beyond a variant's payload are tolerated, so a buffer is accepted
//! whenever it begins with a well-formed command (the tolerant-prefix
//! policy).

use vstd::bytes::lemma_auto_spec_u64_to_from_le_bytes;
use vstd::bytes::spec_u64_from_le_bytes;
use vstd::bytes::spec_u64_to_le_bytes;
use vstd::bytes::u64_from_le_bytes;
use vstd::bytes::u64_to_le_bytes;
use vstd::prelude::*;
use vstd::slice::slice_index_get;
use vstd::slice::slice_subrange;

use crate::account::AccountMeta;
use crate::account::Pubkey;
use crate::error::invalid_instruction_error;
use crate::error::CpiError;
use crate::error::ProgramError;
use crate::system_program;

verus! {

/// The tag byte that opens the wire form of `InvokedTransfer`.
pub const INVOKED_TRANSFER_TAG: u8 = 0;

/// How many bytes the wire form of `InvokedTransfer` occupies: the tag
/// byte plus the eight bytes of the amount.
pub const INVOKED_TRANSFER_LEN: usize = 9;

/// Instructions supported by the program: a closed tagged union, currently
/// of one variant but laid out so that a later variant is a local addition
/// to the codec and dispatch matches.
#[derive(Clone, Copy, Debug, PartialEq, Eq, Structural)]
pub enum CpiInstruction {
    /// Move native tokens from the source to the destination account by
    /// delegating to the system transfer capability.
    InvokedTransfer {
        /// Amount to transfer, in the smallest indivisible unit. The codec
        /// puts no upper bound on it; balance sufficiency is enforced by
        /// the delegated capability.
        amount: u64,
    },
}

impl CpiInstruction {
    /// The wire form of this instruction: the variant's tag byte, then its
    /// fields little-endian.
    pub open spec fn spec_pack(self) -> Seq<u8> {
        match self {
            CpiInstruction::InvokedTransfer { amount } => seq![INVOKED_TRANSFER_TAG]
                + spec_u64_to_le_bytes(amount),
        }
    }

    /// What `unpack` makes of a buffer: the decoded instruction exactly
    /// when the buffer opens with a recognized tag followed by the whole
    /// fixed-width payload, and the invalid-instruction status otherwise.
    pub open spec fn spec_unpack(input: Seq<u8>) -> Result<CpiInstruction, ProgramError> {
        if input.len() >= INVOKED_TRANSFER_LEN && input[0] == INVOKED_TRANSFER_TAG {
            Ok(
                CpiInstruction::InvokedTransfer {
                    amount: spec_u64_from_le_bytes(
                        input.subrange(1, INVOKED_TRANSFER_LEN as int),
                    ),
                },
            )
        } else {
            Err(invalid_instruction_error())
        }
    }

    /// Unpacks a byte buffer into a [`CpiInstruction`].
    ///
    /// Rejects, always with [`CpiError::InvalidInstruction`], an empty
    /// buffer, a first byte that is no recognized tag, and a recognized
    /// tag followed by fewer payload bytes than its variant carries.
    pub fn unpack(input: &[u8]) -> (r: Result<Self, ProgramError>)
        ensures
            r == Self::spec_unpack(input@),
    {
        if input.len() == 0 {
            return Err(ProgramError::from(CpiError::InvalidInstruction));
        }
        let tag = *slice_index_get(input, 0);
        if tag != INVOKED_TRANSFER_TAG || input.len() < INVOKED_TRANSFER_LEN {
            return Err(ProgramError::from(CpiError::InvalidInstruction));
        }
        let amount = u64_from_le_bytes(slice_subrange(input, 1, INVOKED_TRANSFER_LEN));
        Ok(CpiInstruction::InvokedTransfer { amount })
    }

    /// Packs a [`CpiInstruction`] into a byte buffer.
    pub fn pack(&self) -> (r: Vec<u8>)
        ensures
            r@ == self.spec_pack(),
    {
        let mut buf: Vec<u8> = Vec::new();
        match *self {
            CpiInstruction::InvokedTransfer { amount } => {
                buf.push(INVOKED_TRANSFER_TAG);
                let mut payload = u64_to_le_bytes(amount);
                buf.append(&mut payload);
            },
        }
        proof {
            assert(buf@ =~= self.spec_pack());
        }
        buf
    }
}

/// Law: the codec round-trips. Unpacking the wire form of any instruction
/// gives back exactly that instruction.
pub proof fn lemma_pack_unpack_round_trip(inst: CpiInstruction)
    ensures
        CpiInstruction::spec_unpack(inst.spec_pack()) == Ok::<CpiInstruction, ProgramError>(inst),
{
    lemma_auto_spec_u64_to_from_le_bytes();
    match inst {
        CpiInstruction::InvokedTransfer { amount } => {
            let packed = inst.spec_pack();
            assert(packed.len() == INVOKED_TRANSFER_LEN);
            assert(packed[0] == INVOKED_TRANSFER_TAG);
            assert(packed.subrange(1, INVOKED_TRANSFER_LEN as int) =~= spec_u64_to_le_bytes(
                amount,
            ));
        },
    }
}

/// The account list a transfer instruction is built with: source first and
/// authorizing the call, then the destination, then a read-only reference
/// to the system program; the first two writable.
pub open spec fn spec_transfer_accounts(source: Pubkey, destination: Pubkey) -> Seq<AccountMeta> {
    seq![
        AccountMeta { pubkey: source, is_signer: true, is_writable: true },
        AccountMeta { pubkey: destination, is_signer: false, is_writable: true },
        AccountMeta { pubkey: system_program::spec_id(), is_signer: false, is_writable: false },
    ]
}

/// An instruction for some program: the buffer it is to process and the
/// ordered account list the processing call is given.
#[derive(Clone, Debug, PartialEq, Eq)]
pub struct Instruction {
    /// The program that is to process this instruction.
    pub program_id: Pubkey,
    /// The ordered account list, interpreted positionally.
    pub accounts: Vec<AccountMeta>,
    /// The instruction buffer handed to the program's codec.
    pub data: Vec<u8>,
}

/// Creates an `InvokedTransfer` instruction addressed to this program: the
/// packed command plus the three-entry account list the processor expects.
pub fn invoked_transfer(
    program_id: &Pubkey,
    source_pubkey: &Pubkey,
    destination_pubkey: &Pubkey,
    amount: u64,
) -> (r: Result<Instruction, ProgramError>)
    ensures
        r matches Ok(inst) && inst.program_id == *program_id && inst.data@
            == (CpiInstruction::InvokedTransfer { amount }).spec_pack() && inst.accounts@
            == spec_transfer_accounts(*source_pubkey, *destination_pubkey),
{
    let data = CpiInstruction::InvokedTransfer { amount }.pack();

    let mut accounts: Vec<AccountMeta> = Vec::new();
    accounts.push(AccountMeta::new(*source_pubkey, true));
    accounts.push(AccountMeta::new(*destination_pubkey, false));
    accounts.push(AccountMeta::new_readonly(system_program::id(), false));
    proof {
        assert(accounts@ =~= spec_transfer_accounts(*source_pubkey, *destination_pubkey));
    }

    Ok(Instruction { program_id: *program_id, accounts, data })
}

} // verus!
