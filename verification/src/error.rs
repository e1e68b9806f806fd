//! The closed set of failures a request can end in.

use vstd::prelude::*;

verus! {

/// Why a request was turned down. Every failure leaves the accounts as they were.
#[derive(Clone, Copy, Debug, PartialEq, Eq, Structural)]
pub enum ProgramError {
    /// The request bytes are empty, carry an unknown tag, or do not match the
    /// layout of the tagged instruction exactly.
    InvalidInstructionData,
    /// Fewer accounts were passed than the instruction reads.
    NotEnoughAccountKeys,
    /// The initiating account did not sign the request.
    MissingRequiredSignature,
    /// The record's account is not owned by the program that was invoked.
    IllegalOwner,
    /// A record at this address is already initialized.
    AccountAlreadyInitialized,
    /// The authority passed in is not the one derived from the program's seeds.
    InvalidSeeds,
    /// The program asked to carry out a transfer is not the token program.
    IncorrectProgramId,
    /// An account of another program does not hold what its layout declares.
    InvalidAccountData,
    /// An account of another program holds a state that was never initialized.
    UninitializedAccount,
    /// The stored bytes do not decode as the record they should hold.
    BorshIoError,
    /// The record does not fit into the storage reserved for it.
    AccountDataTooSmall,
    /// A failure of one program's own, by its code.
    Custom(u32),
}

} // verus!
