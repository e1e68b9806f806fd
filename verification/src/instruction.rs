//! A request that a program hands to another program, and the one request
//! that every program here may need: to have storage created for a record.

use crate::codec::u64_le_bytes;
use crate::pubkey::Pubkey;
use vstd::prelude::*;

verus! {

/// An account as a request to another program names it.
#[derive(Clone, Copy, Debug)]
pub struct AccountMeta {
    pub pubkey: Pubkey,
    /// Whether the account must have signed.
    pub is_signer: bool,
    /// Whether the other program may change the account.
    pub is_writable: bool,
}

impl AccountMeta {
    /// The account with the address `bytes`.
    pub fn from_parts(bytes: [u8; 32], is_signer: bool, is_writable: bool) -> (meta: AccountMeta)
        ensures
            meta == (AccountMeta { pubkey: Pubkey(bytes), is_signer, is_writable }),
    {
        AccountMeta { pubkey: Pubkey(bytes), is_signer, is_writable }
    }
}

/// A request to another program: the program, the accounts it is to work on,
/// and the bytes that say what it is to do.
#[derive(Debug)]
pub struct Instruction {
    pub program_id: Pubkey,
    pub accounts: Vec<AccountMeta>,
    pub data: Vec<u8>,
}

/// A request with the seeds under which the sender signs for its own derived
/// address: the seeds the address was derived from, then the bump seed.
#[derive(Debug)]
pub struct SignedInvocation {
    pub instruction: Instruction,
    pub signer_seeds: Vec<Vec<u8>>,
}

/// Whether `ix` asks the system program to create the account `to` with
/// `space` bytes of storage, owned by `owner` and funded with `lamports` from
/// `from`: the program is the one whose address is all zero, both accounts
/// sign and may change, and the bytes are the tag 0 in four bytes, the
/// lamports, the space and the owner.
pub open spec fn is_create_account(
    ix: Instruction,
    from: Pubkey,
    to: Pubkey,
    lamports: u64,
    space: u64,
    owner: Pubkey,
) -> bool {
    &&& ix.program_id@ == Seq::new(32, |i: int| 0u8)
    &&& ix.accounts@ == seq![
        AccountMeta { pubkey: from, is_signer: true, is_writable: true },
        AccountMeta { pubkey: to, is_signer: true, is_writable: true },
    ]
    &&& ix.data@ == seq![0u8, 0u8, 0u8, 0u8] + u64_le_bytes(lamports) + u64_le_bytes(space)
        + owner@
}

/// Calls `solana_program::system_instruction::create_account`, which builds
/// the system program's request to create an account, and copies the request
/// field by field. The contract states the request in full, as that function
/// and the encoding of its instruction enumeration give it.
#[verifier::external_body]
pub(crate) fn system_create_account(
    from: &Pubkey,
    to: &Pubkey,
    lamports: u64,
    space: u64,
    owner: &Pubkey,
) -> (ix: Instruction)
    ensures
        is_create_account(ix, *from, *to, lamports, space, *owner),
{
    let key = solana_program::pubkey::Pubkey::new_from_array;
    let built = solana_program::system_instruction::create_account(
        &key(from.0), &key(to.0), lamports, space, &key(owner.0),
    );
    Instruction {
        program_id: Pubkey(built.program_id.to_bytes()),
        accounts: built.accounts.iter().map(
            |m| AccountMeta::from_parts(m.pubkey.to_bytes(), m.is_signer, m.is_writable),
        ).collect(),
        data: built.data,
    }
}

} // verus!
