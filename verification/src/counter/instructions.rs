//! The requests of the counter program and their byte form.

use crate::codec::{lemma_u32_bytes_round_trip, lemma_u32_round_trip, read_u32, u32_le_at, u32_le_bytes};
use crate::error::ProgramError;
use vstd::prelude::*;

verus! {

/// By how much to count up.
#[derive(Clone, Copy, Debug, PartialEq, Eq, Structural)]
pub struct IncrementArgs {
    pub amount: u32,
}

/// By how much to count down.
#[derive(Clone, Copy, Debug, PartialEq, Eq, Structural)]
pub struct DecrementArgs {
    pub amount: u32,
}

/// The value to set the counter to.
#[derive(Clone, Copy, Debug, PartialEq, Eq, Structural)]
pub struct UpdateArgs {
    pub value: u32,
}

/// A request to the counter program. Its bytes are a tag and, but for a
/// reset, a number in four little-endian bytes: 0 and the amount to count up
/// by, 1 and the amount to count down by, 2 and the value to set, 3 alone to
/// reset.
#[derive(Clone, Copy, Debug, PartialEq, Eq, Structural)]
pub enum CounterInstructions {
    Increment(IncrementArgs),
    Decrement(DecrementArgs),
    Update(UpdateArgs),
    Reset,
}

impl CounterInstructions {
    /// The request's bytes.
    pub open spec fn bytes(self) -> Seq<u8> {
        match self {
            CounterInstructions::Increment(args) => seq![0u8] + u32_le_bytes(args.amount),
            CounterInstructions::Decrement(args) => seq![1u8] + u32_le_bytes(args.amount),
            CounterInstructions::Update(args) => seq![2u8] + u32_le_bytes(args.value),
            CounterInstructions::Reset => seq![3u8],
        }
    }

    /// Reads a request from its bytes. Bytes that are not exactly the bytes
    /// of one request are refused.
    pub fn unpack(input: &[u8]) -> (request: Result<CounterInstructions, ProgramError>)
        ensures
            request == match unpacked(input@) {
                Some(instruction) => Ok(instruction),
                None => Err(ProgramError::InvalidInstructionData),
            },
    {
        if input.len() < 1 {
            return Err(ProgramError::InvalidInstructionData);
        }
        let variant = input[0];
        if variant == 3 {
            if input.len() != 1 {
                return Err(ProgramError::InvalidInstructionData);
            }
            return Ok(CounterInstructions::Reset);
        }
        if variant > 3 || input.len() != 5 {
            return Err(ProgramError::InvalidInstructionData);
        }
        let number = read_u32(input, 1);
        if variant == 0 {
            Ok(CounterInstructions::Increment(IncrementArgs { amount: number }))
        } else if variant == 1 {
            Ok(CounterInstructions::Decrement(DecrementArgs { amount: number }))
        } else {
            Ok(CounterInstructions::Update(UpdateArgs { value: number }))
        }
    }
}

/// The request that `b` holds: a known tag, then the number that the tag
/// announces, then nothing. `None` for anything else.
pub open spec fn unpacked(b: Seq<u8>) -> Option<CounterInstructions> {
    if b.len() == 1 && b[0] == 3 {
        Some(CounterInstructions::Reset)
    } else if b.len() == 5 && b[0] == 0 {
        Some(CounterInstructions::Increment(IncrementArgs { amount: u32_le_at(b, 1) }))
    } else if b.len() == 5 && b[0] == 1 {
        Some(CounterInstructions::Decrement(DecrementArgs { amount: u32_le_at(b, 1) }))
    } else if b.len() == 5 && b[0] == 2 {
        Some(CounterInstructions::Update(UpdateArgs { value: u32_le_at(b, 1) }))
    } else {
        None
    }
}

/// The bytes of a request unpack to that request.
pub proof fn lemma_unpack_round_trip(request: CounterInstructions)
    ensures
        unpacked(request.bytes()) == Some(request),
{
    match request {
        CounterInstructions::Increment(args) => {
            lemma_u32_round_trip(seq![0u8], args.amount, Seq::empty());
            assert(request.bytes() =~= seq![0u8] + u32_le_bytes(args.amount) + Seq::empty());
        },
        CounterInstructions::Decrement(args) => {
            lemma_u32_round_trip(seq![1u8], args.amount, Seq::empty());
            assert(request.bytes() =~= seq![1u8] + u32_le_bytes(args.amount) + Seq::empty());
        },
        CounterInstructions::Update(args) => {
            lemma_u32_round_trip(seq![2u8], args.value, Seq::empty());
            assert(request.bytes() =~= seq![2u8] + u32_le_bytes(args.value) + Seq::empty());
        },
        CounterInstructions::Reset => {},
    }
}

/// Bytes that unpack to a request are the bytes of that request, and of no
/// other.
pub proof fn lemma_unpacked_bytes(b: Seq<u8>, request: CounterInstructions)
    requires
        unpacked(b) == Some(request),
    ensures
        request.bytes() == b,
{
    if b.len() == 5 {
        lemma_u32_bytes_round_trip(b, 1);
        assert(b =~= seq![b[0]] + b.subrange(1, 5));
    } else {
        assert(b =~= seq![3u8]);
    }
}

} // verus!
