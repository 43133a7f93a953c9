//! Program state processor.
//!
//! Dispatch is stateless across calls. Within one call it decodes the
//! instruction buffer, pulls the three account handles the command needs
//! in strict order, issues exactly one delegated invocation through the
//! injected transfer capability, and propagates that invocation's result
//! verbatim — no retry, no other side effect before or after.

use vstd::prelude::*;

use crate::account::AccountInfo;
use crate::account::Pubkey;
use crate::error::ProgramError;
use crate::instruction::CpiInstruction;

verus! {

/// One delegated transfer request: the triple the processor hands to the
/// system transfer capability.
#[derive(Clone, Copy, Debug, PartialEq, Eq)]
pub struct TransferCall {
    /// The paying account's address.
    pub source: Pubkey,
    /// The receiving account's address.
    pub destination: Pubkey,
    /// Amount to move, in the smallest indivisible unit.
    pub amount: u64,
}

/// The request the processor issues for a transfer between two given
/// account handles.
pub open spec fn spec_transfer_call(
    source: AccountInfo,
    destination: AccountInfo,
    amount: u64,
) -> TransferCall {
    TransferCall { source: source.key, destination: destination.key, amount }
}

/// The delegated system transfer capability: the one external effect
/// boundary of this program, injected into the processor so dispatch can
/// be exercised against a scripted stand-in as well as a live host.
///
/// A capability keeps a ghost log of every request it has received, and
/// its state determines the outcome it reports next; an implementor is
/// free to make every outcome an error, so the processor promises nothing
/// about success beyond passing the outcome through.
pub trait TransferCapability {
    /// Every delegated request this capability has received, oldest first.
    spec fn log(&self) -> Seq<TransferCall>;

    /// The outcome the capability reports for the next invocation,
    /// determined by its current state.
    spec fn next_outcome(&self) -> Result<(), ProgramError>;

    /// Issue one delegated transfer of `amount` from `source` to
    /// `destination`, passing the three account handles along so the
    /// receiving context can itself validate authorization and mutate
    /// balances.
    fn invoke_transfer(
        &mut self,
        source: &AccountInfo,
        destination: &AccountInfo,
        system: &AccountInfo,
        amount: u64,
    ) -> (r: Result<(), ProgramError>)
        ensures
            final(self).log() == old(self).log().push(
                spec_transfer_call(*source, *destination, amount),
            ),
            r == old(self).next_outcome(),
    ;
}

/// A scripted capability for exercising the processor off a live host: it
/// records every request it receives and reports one fixed outcome.
pub struct RecordingCapability {
    /// The error every invocation reports; `None` makes each succeed.
    pub failure: Option<ProgramError>,
    /// Every request received so far, oldest first.
    pub calls: Vec<TransferCall>,
}

impl RecordingCapability {
    /// A capability whose every invocation succeeds, with an empty log.
    pub fn new() -> (r: RecordingCapability)
        ensures
            r.log() == Seq::<TransferCall>::empty(),
            r.failure is None,
    {
        RecordingCapability { failure: None, calls: Vec::new() }
    }

    /// A capability whose every invocation fails with `error`, with an
    /// empty log.
    pub fn failing(error: ProgramError) -> (r: RecordingCapability)
        ensures
            r.log() == Seq::<TransferCall>::empty(),
            r.failure == Some(error),
    {
        RecordingCapability { failure: Some(error), calls: Vec::new() }
    }

    /// How many requests this capability has received.
    pub fn call_count(&self) -> (r: usize)
        ensures
            r == self.log().len(),
    {
        self.calls.len()
    }
}

impl TransferCapability for RecordingCapability {
    open spec fn log(&self) -> Seq<TransferCall> {
        self.calls@
    }

    open spec fn next_outcome(&self) -> Result<(), ProgramError> {
        match self.failure {
            None => Ok(()),
            Some(e) => Err(e),
        }
    }

    fn invoke_transfer(
        &mut self,
        source: &AccountInfo,
        destination: &AccountInfo,
        _system: &AccountInfo,
        amount: u64,
    ) -> (r: Result<(), ProgramError>) {
        self.calls.push(TransferCall { source: source.key, destination: destination.key, amount });
        match self.failure {
            None => Ok(()),
            Some(e) => Err(e),
        }
    }
}

/// Program state handler.
pub struct Processor {}

impl Processor {
    /// Processes an `InvokedTransfer` instruction: takes the source, the
    /// destination and the system-program handle from the account list in
    /// strict order, fails with the missing-account condition when fewer
    /// than three are present, and otherwise issues the one delegated
    /// transfer and reports its outcome unchanged.
    pub fn process_invoked_transfer<C: TransferCapability>(
        capability: &mut C,
        accounts: &[AccountInfo],
        amount: u64,
    ) -> (r: Result<(), ProgramError>)
        ensures
            accounts@.len() < 3 ==> {
                &&& r == Err::<(), ProgramError>(ProgramError::NotEnoughAccountKeys)
                &&& final(capability).log() == old(capability).log()
            },
            accounts@.len() >= 3 ==> {
                &&& final(capability).log() == old(capability).log().push(
                    spec_transfer_call(accounts@[0], accounts@[1], amount),
                )
                &&& r == old(capability).next_outcome()
            },
    {
        if accounts.len() < 3 {
            return Err(ProgramError::NotEnoughAccountKeys);
        }
        let source_account_info = vstd::slice::slice_index_get(accounts, 0);
        let dest_account_info = vstd::slice::slice_index_get(accounts, 1);
        let system_program_account_info = vstd::slice::slice_index_get(accounts, 2);

        capability.invoke_transfer(
            source_account_info,
            dest_account_info,
            system_program_account_info,
            amount,
        )
    }

    /// Processes an instruction buffer: decodes it through the codec,
    /// rejecting a malformed buffer with the codec's own status before any
    /// account is looked at, and dispatches the decoded command to its
    /// handler above.
    pub fn process<C: TransferCapability>(
        capability: &mut C,
        _program_id: &Pubkey,
        accounts: &[AccountInfo],
        input: &[u8],
    ) -> (r: Result<(), ProgramError>)
        ensures
            CpiInstruction::spec_unpack(input@) is Err ==> {
                &&& r == Err::<(), ProgramError>(CpiInstruction::spec_unpack(input@)->Err_0)
                &&& final(capability).log() == old(capability).log()
            },
            CpiInstruction::spec_unpack(input@) is Ok && accounts@.len() < 3 ==> {
                &&& r == Err::<(), ProgramError>(ProgramError::NotEnoughAccountKeys)
                &&& final(capability).log() == old(capability).log()
            },
            CpiInstruction::spec_unpack(input@) is Ok && accounts@.len() >= 3 ==> {
                &&& final(capability).log() == old(capability).log().push(
                    spec_transfer_call(
                        accounts@[0],
                        accounts@[1],
                        CpiInstruction::spec_unpack(input@)->Ok_0->amount,
                    ),
                )
                &&& r == old(capability).next_outcome()
            },
    {
        let instruction = match CpiInstruction::unpack(input) {
            Ok(instruction) => instruction,
            Err(e) => {
                return Err(e);
            },
        };

        match instruction {
            CpiInstruction::InvokedTransfer { amount } => {
                Self::process_invoked_transfer(capability, accounts, amount)
            },
        }
    }
}

} // verus!
