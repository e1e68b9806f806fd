//! The counter program: one number in one account, counted up and down, set
//! and reset.

pub mod instructions;

use crate::account_info::{AccountInfo, AccountInfoView};
use crate::codec::{
    lemma_u32_bytes_round_trip, lemma_u32_round_trip, overwrite_front, read_u32, u32_le_at,
    u32_le_bytes, write_u32,
};
use crate::counter::instructions::{unpacked, CounterInstructions};
use crate::error::ProgramError;
use crate::pubkey::Pubkey;
use vstd::math::max;
use vstd::prelude::*;

verus! {

/// The record of the counter program: the counter itself.
#[derive(Clone, Copy, Debug, PartialEq, Eq, Structural)]
pub struct CounterAccount {
    pub counter: u32,
}

/// The counter that `data` holds: four bytes, no more and no fewer.
pub open spec fn counter_in(data: Seq<u8>) -> Option<CounterAccount> {
    if data.len() == 4 {
        Some(CounterAccount { counter: u32_le_at(data, 0) })
    } else {
        None
    }
}

impl CounterAccount {
    /// The stored form: the counter in four little-endian bytes.
    pub open spec fn bytes(self) -> Seq<u8> {
        u32_le_bytes(self.counter)
    }

    /// Reads the counter from `data`, which must hold it and nothing else.
    pub fn try_from_slice(data: &[u8]) -> (read: Result<CounterAccount, ProgramError>)
        ensures
            read == match counter_in(data@) {
                Some(account) => Ok(account),
                None => Err(ProgramError::BorshIoError),
            },
    {
        if data.len() != 4 {
            return Err(ProgramError::BorshIoError);
        }
        Ok(CounterAccount { counter: read_u32(data, 0) })
    }

    /// Writes the counter at the front of `storage` and leaves what lies
    /// behind it. Storage of fewer than four bytes is not written to.
    pub fn serialize(&self, storage: &mut Vec<u8>) -> (written: Result<(), ProgramError>)
        ensures
            old(storage)@.len() >= 4 ==> written is Ok && final(storage)@ == self.bytes() + old(
                storage,
            )@.subrange(4, old(storage)@.len() as int),
            old(storage)@.len() < 4 ==> written == Err::<(), ProgramError>(
                ProgramError::AccountDataTooSmall,
            ) && final(storage)@ == old(storage)@,
    {
        if storage.len() < 4 {
            return Err(ProgramError::AccountDataTooSmall);
        }
        let mut encoded: Vec<u8> = Vec::new();
        write_u32(&mut encoded, self.counter);
        overwrite_front(storage, encoded.as_slice());
        Ok(())
    }
}

/// A counter that was stored is read back as it was.
pub proof fn lemma_counter_round_trip(account: CounterAccount)
    ensures
        counter_in(account.bytes()) == Some(account),
{
    lemma_u32_round_trip(Seq::empty(), account.counter, Seq::empty());
    assert(account.bytes() =~= Seq::empty() + u32_le_bytes(account.counter) + Seq::empty());
}

/// Where a counter is read, the bytes are the stored form of that counter.
pub proof fn lemma_counter_in_bytes(data: Seq<u8>, account: CounterAccount)
    requires
        counter_in(data) == Some(account),
    ensures
        account.bytes() == data,
{
    lemma_u32_bytes_round_trip(data, 0);
    assert(data.subrange(0, 4) =~= data);
}

/// `current` counted up by `amount`. Past the largest number of 32 bits the
/// count goes on from 0.
pub open spec fn incremented(current: u32, amount: u32) -> u32 {
    ((current + amount) % 0x1_0000_0000) as u32
}

/// `current` counted down by `amount`, but never below 0.
pub open spec fn decremented(current: u32, amount: u32) -> u32 {
    max(current - amount, 0) as u32
}

/// The counter after a request, having stood at `current`.
pub open spec fn applied(current: u32, instruction: CounterInstructions) -> u32 {
    match instruction {
        CounterInstructions::Increment(args) => incremented(current, args.amount),
        CounterInstructions::Decrement(args) => decremented(current, args.amount),
        CounterInstructions::Update(args) => args.value,
        CounterInstructions::Reset => 0,
    }
}

/// Counts up, going on from 0 past the largest number of 32 bits.
pub fn increment(current: u32, amount: u32) -> (counter: u32)
    ensures
        counter == incremented(current, amount),
        current + amount <= u32::MAX ==> counter == current + amount,
{
    if amount > u32::MAX - current {
        amount - (u32::MAX - current) - 1
    } else {
        current + amount
    }
}

/// Counts down, stopping at 0.
pub fn decrement(current: u32, amount: u32) -> (counter: u32)
    ensures
        counter == max(current - amount, 0),
        counter == decremented(current, amount),
{
    if amount > current {
        0
    } else {
        current - amount
    }
}

impl CounterAccount {
    /// Carries out a request on the counter.
    pub fn apply(&mut self, instruction: &CounterInstructions)
        ensures
            final(self).counter == applied(old(self).counter, *instruction),
    {
        match instruction {
            CounterInstructions::Increment(args) => {
                self.counter = increment(self.counter, args.amount);
            },
            CounterInstructions::Decrement(args) => {
                self.counter = decrement(self.counter, args.amount);
            },
            CounterInstructions::Update(args) => {
                self.counter = args.value;
            },
            CounterInstructions::Reset => {
                self.counter = 0;
            },
        }
    }
}

/// What a request in bytes makes the first account store: the request must
/// unpack, the account must be there, and it must hold a counter.
pub open spec fn counter_effect(
    accounts: Seq<AccountInfoView>,
    instructions_data: Seq<u8>,
) -> Result<Seq<u8>, ProgramError> {
    match unpacked(instructions_data) {
        None => Err(ProgramError::InvalidInstructionData),
        Some(instruction) => if accounts.len() < 1 {
            Err(ProgramError::NotEnoughAccountKeys)
        } else {
            match counter_in(accounts[0].data) {
                None => Err(ProgramError::BorshIoError),
                Some(account) => Ok(
                    (CounterAccount { counter: applied(account.counter, instruction) }).bytes(),
                ),
            }
        },
    }
}

/// Unpacks a request and carries it out on the counter in the first account.
/// A request that is turned down changes nothing; one that is carried out
/// changes what the first account stores, and nothing else.
pub fn process_instruction(
    _program_id: &Pubkey,
    accounts: &mut Vec<AccountInfo>,
    instructions_data: &[u8],
) -> (result: Result<(), ProgramError>)
    ensures
        match counter_effect(old(accounts).deep_view(), instructions_data@) {
            Err(e) => result == Err::<(), ProgramError>(e) && final(accounts).deep_view() == old(
                accounts,
            ).deep_view(),
            Ok(data) => result is Ok && final(accounts).deep_view() == old(
                accounts,
            ).deep_view().update(0, old(accounts)[0]@.with_data(data)),
        },
        final(accounts)@.len() == old(accounts)@.len(),
{
    let instruction = match CounterInstructions::unpack(instructions_data) {
        Ok(instruction) => instruction,
        Err(e) => { return Err(e); },
    };
    if accounts.len() < 1 {
        return Err(ProgramError::NotEnoughAccountKeys);
    }
    let mut counter_account = match CounterAccount::try_from_slice(accounts[0].data.as_slice()) {
        Ok(account) => account,
        Err(e) => { return Err(e); },
    };
    counter_account.apply(&instruction);
    match counter_account.serialize(&mut accounts[0].data) {
        Ok(()) => {
            assert(accounts[0].data@ =~= counter_account.bytes());
            assert(accounts.deep_view() =~= old(accounts).deep_view().update(
                0,
                old(accounts)[0]@.with_data(accounts[0].data@),
            ));
            Ok(())
        },
        Err(e) => {
            assert(accounts.deep_view() =~= old(accounts).deep_view());
            Err(e)
        },
    }
}

} // verus!
