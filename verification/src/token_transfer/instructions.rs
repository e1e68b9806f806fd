//! The request of the transfer program and its byte form.

use crate::codec::{lemma_u64_bytes_round_trip, lemma_u64_round_trip, read_u64, u64_le_at, u64_le_bytes};
use crate::error::ProgramError;
use vstd::prelude::*;

verus! {

/// What a transfer request carries.
#[derive(Clone, Copy, Debug, PartialEq, Eq, Structural)]
pub struct TransferArgs {
    pub amount: u64,
}

/// A request to the transfer program. Its bytes are the tag 0, then the
/// amount in eight little-endian bytes.
#[derive(Clone, Copy, Debug, PartialEq, Eq, Structural)]
pub enum TokenTransferInstructions {
    Transfer(TransferArgs),
}

impl TokenTransferInstructions {
    /// The request's bytes.
    pub open spec fn bytes(self) -> Seq<u8> {
        match self {
            TokenTransferInstructions::Transfer(args) => seq![0u8] + u64_le_bytes(args.amount),
        }
    }

    /// Reads a request from its bytes. Bytes that are not exactly the bytes
    /// of one request are refused.
    pub fn unpack(input: &[u8]) -> (request: Result<TokenTransferInstructions, ProgramError>)
        ensures
            request == match unpacked(input@) {
                Some(instruction) => Ok(instruction),
                None => Err(ProgramError::InvalidInstructionData),
            },
    {
        if input.len() != 9 || input[0] != 0 {
            return Err(ProgramError::InvalidInstructionData);
        }
        Ok(TokenTransferInstructions::Transfer(TransferArgs { amount: read_u64(input, 1) }))
    }
}

/// The request that `b` holds: the tag 0, then eight bytes, then nothing.
/// `None` for anything else.
pub open spec fn unpacked(b: Seq<u8>) -> Option<TokenTransferInstructions> {
    if b.len() == 9 && b[0] == 0 {
        Some(TokenTransferInstructions::Transfer(TransferArgs { amount: u64_le_at(b, 1) }))
    } else {
        None
    }
}

/// The bytes of a request unpack to that request.
pub proof fn lemma_unpack_round_trip(request: TokenTransferInstructions)
    ensures
        unpacked(request.bytes()) == Some(request),
{
    let TokenTransferInstructions::Transfer(args) = request;
    lemma_u64_round_trip(seq![0u8], args.amount, Seq::empty());
    assert(request.bytes() =~= seq![0u8] + u64_le_bytes(args.amount) + Seq::empty());
}

/// Bytes that unpack to a request are the bytes of that request, and of no
/// other.
pub proof fn lemma_unpacked_bytes(b: Seq<u8>, request: TokenTransferInstructions)
    requires
        unpacked(b) == Some(request),
    ensures
        request.bytes() == b,
{
    lemma_u64_bytes_round_trip(b, 1);
    assert(b =~= seq![0u8] + b.subrange(1, 9));
}

} // verus!
