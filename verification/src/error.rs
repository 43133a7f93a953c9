//! Error types.
//!
//! Failures are values, never crashes: the codec reports a malformed buffer,
//! the processor reports a short account list, and a delegated failure is
//! passed through verbatim. The program's own errors are reported to the
//! host as stable numeric codes; the code mapping is explicit and
//! append-only, since consumers depend on its stability.

use vstd::prelude::*;

verus! {

/// Errors that may be returned by the program itself.
#[derive(Clone, Copy, Debug, PartialEq, Eq, Structural)]
pub enum CpiError {
    /// The instruction buffer was empty, carried an unrecognized tag byte,
    /// or was too short for the tagged variant's payload.
    InvalidInstruction,
}

impl CpiError {
    /// The stable numeric code each error variant is reported under.
    pub open spec fn spec_code(self) -> u32 {
        match self {
            CpiError::InvalidInstruction => 0,
        }
    }

    /// Numeric code of this error, as handed to the host.
    pub fn code(self) -> (r: u32)
        ensures
            r == self.spec_code(),
    {
        match self {
            CpiError::InvalidInstruction => 0,
        }
    }

    /// The error a numeric code stands for, if any; the inverse of `code`.
    pub fn from_code(code: u32) -> (r: Option<CpiError>)
        ensures
            r == (if code == 0 {
                Some(CpiError::InvalidInstruction)
            } else {
                None::<CpiError>
            }),
    {
        if code == 0 {
            Some(CpiError::InvalidInstruction)
        } else {
            None
        }
    }

    /// The name this error family is reported under when a numeric code
    /// is decoded back for display.
    pub fn type_of() -> (r: &'static str)
        ensures
            r@ == "CpiError"@,
    {
        "CpiError"
    }

    /// A human-readable description of this error.
    pub fn error_text(self) -> (r: &'static str)
        ensures
            self is InvalidInstruction ==> r@ == "Invalid instruction"@,
    {
        match self {
            CpiError::InvalidInstruction => "Invalid instruction",
        }
    }
}

/// The status a processing call reports to the host. Besides the program's
/// own coded errors it carries the conditions the runtime layer defines, so
/// a delegated failure travels through dispatch unchanged.
#[derive(Clone, Copy, Debug, PartialEq, Eq, Structural)]
pub enum ProgramError {
    /// A program-defined error, carried as its stable numeric code.
    Custom(u32),
    /// Fewer account handles were supplied than the instruction requires.
    NotEnoughAccountKeys,
    /// The source account's balance does not cover the requested amount;
    /// raised by the delegated transfer capability, never by this program.
    InsufficientFunds,
}

/// The status under which every codec rejection is reported.
pub open spec fn invalid_instruction_error() -> ProgramError {
    ProgramError::Custom(CpiError::InvalidInstruction.spec_code())
}

impl core::convert::From<CpiError> for ProgramError {
    /// The program's own errors reach the host as their numeric codes.
    fn from(e: CpiError) -> (r: ProgramError) {
        ProgramError::Custom(e.code())
    }
}

impl vstd::std_specs::convert::FromSpecImpl<CpiError> for ProgramError {
    open spec fn obeys_from_spec() -> bool {
        true
    }

    open spec fn from_spec(e: CpiError) -> ProgramError {
        ProgramError::Custom(e.spec_code())
    }
}

} // verus!
