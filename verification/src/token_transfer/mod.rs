//! The transfer program: it moves the tokens of an account that its derived
//! authority controls, by asking the token program to do so.

pub mod instructions;

use crate::account_info::{AccountInfo, AccountInfoView};
use crate::codec::{u64_le_at, u64_le_bytes};
use crate::error::ProgramError;
use crate::instruction::{AccountMeta, Instruction, SignedInvocation};
use crate::pubkey::{
    address_matches, bump_of, found_view, lemma_pubkey_ext, program_address, Pubkey,
};
use vstd::prelude::*;

verus! {

/// The address of the token program.
pub open spec fn token_program_id() -> Seq<u8> {
    seq![
        6u8, 221u8, 246u8, 225u8, 215u8, 101u8, 161u8, 147u8, 217u8, 203u8, 225u8, 70u8, 206u8,
        235u8, 121u8, 172u8, 28u8, 180u8, 133u8, 237u8, 95u8, 91u8, 55u8, 145u8, 58u8, 140u8,
        245u8, 133u8, 126u8, 255u8, 0u8, 169u8,
    ]
}

/// The one seed of the program's authority: the word "authority".
pub open spec fn authority_seeds() -> Seq<Seq<u8>> {
    seq![seq![97u8, 117u8, 116u8, 104u8, 111u8, 114u8, 105u8, 116u8, 121u8]]
}

/// Whether the four bytes at `at` announce an optional field: 0 or 1 as a
/// little-endian number.
pub open spec fn option_tag_at(b: Seq<u8>, at: int) -> bool {
    b[at] <= 1 && b[at + 1] == 0 && b[at + 2] == 0 && b[at + 3] == 0
}

/// The decimals that a mint's account declares. The account has 82 bytes:
/// an optional mint authority, the supply, the decimals at 44, the
/// initialization flag at 45, an optional freeze authority.
pub open spec fn mint_decimals(data: Seq<u8>) -> Result<u8, ProgramError> {
    if data.len() != 82 || !option_tag_at(data, 0) || data[45] > 1 || !option_tag_at(data, 46) {
        Err(ProgramError::InvalidAccountData)
    } else if data[45] == 0 {
        Err(ProgramError::UninitializedAccount)
    } else {
        Ok(data[44])
    }
}

/// The amount that a token account holds. The account has 165 bytes: the
/// mint, the owner, the amount at 64, an optional delegate at 72, the state
/// at 108 (0 while not initialized, else 1 or 2), an optional native reserve
/// at 109, the delegated amount, an optional close authority at 129.
pub open spec fn token_account_amount(data: Seq<u8>) -> Result<u64, ProgramError> {
    if data.len() != 165 || !option_tag_at(data, 72) || data[108] > 2 || !option_tag_at(data, 109)
        || !option_tag_at(data, 129) {
        Err(ProgramError::InvalidAccountData)
    } else if data[108] == 0 {
        Err(ProgramError::UninitializedAccount)
    } else {
        Ok(u64_le_at(data, 64))
    }
}

/// Whether `ix` asks the token program at `token_program` to move `amount`
/// from `source` to `destination`, tokens of `mint` with `decimals`
/// decimals, on the word of `authority` alone: source and destination may
/// change, the authority signs, and the bytes are the tag 12, the amount and
/// the decimals.
pub open spec fn is_transfer_checked(
    ix: Instruction,
    token_program: Pubkey,
    source: Pubkey,
    mint: Pubkey,
    destination: Pubkey,
    authority: Pubkey,
    amount: u64,
    decimals: u8,
) -> bool {
    &&& ix.program_id == token_program
    &&& ix.accounts@ == seq![
        AccountMeta { pubkey: source, is_signer: false, is_writable: true },
        AccountMeta { pubkey: mint, is_signer: false, is_writable: false },
        AccountMeta { pubkey: destination, is_signer: false, is_writable: true },
        AccountMeta { pubkey: authority, is_signer: true, is_writable: false },
    ]
    &&& ix.data@ == seq![12u8] + u64_le_bytes(amount) + seq![decimals]
}

/// Calls `spl_token::state::Mint::unpack` on the bytes of a mint's account
/// and hands out the decimals. The contract states the layout that the call
/// checks: the length, the tags of the two optional fields, the flag; and
/// which of its two failures comes when.
#[verifier::external_body]
fn spl_mint_decimals(data: &[u8]) -> (decimals: Result<u8, ProgramError>)
    ensures
        decimals == mint_decimals(data@),
{
    match <spl_token::state::Mint as solana_program::program_pack::Pack>::unpack(data) {
        Ok(mint) => Ok(mint.decimals),
        Err(solana_program::program_error::ProgramError::UninitializedAccount) => Err(
            ProgramError::UninitializedAccount,
        ),
        Err(_) => Err(ProgramError::InvalidAccountData),
    }
}

/// Calls `spl_token::state::Account::unpack` on the bytes of a token account
/// and hands out the amount. The contract states the layout that the call
/// checks: the length, the tags of the three optional fields, the state; and
/// which of its two failures comes when.
#[verifier::external_body]
fn spl_account_amount(data: &[u8]) -> (amount: Result<u64, ProgramError>)
    ensures
        amount == token_account_amount(data@),
{
    match <spl_token::state::Account as solana_program::program_pack::Pack>::unpack(data) {
        Ok(account) => Ok(account.amount),
        Err(solana_program::program_error::ProgramError::UninitializedAccount) => Err(
            ProgramError::UninitializedAccount,
        ),
        Err(_) => Err(ProgramError::InvalidAccountData),
    }
}

/// Calls `spl_token::instruction::transfer_checked` with no signers beside
/// the authority, and copies the request field by field. The call refuses
/// every program but the token program; the contract says so, and states
/// the request in full.
#[verifier::external_body]
fn spl_transfer_checked(
    token_program: &Pubkey,
    source: &Pubkey,
    mint: &Pubkey,
    destination: &Pubkey,
    authority: &Pubkey,
    amount: u64,
    decimals: u8,
) -> (built: Result<Instruction, ProgramError>)
    ensures
        match built {
            Ok(ix) => token_program@ == token_program_id() && is_transfer_checked(
                ix,
                *token_program,
                *source,
                *mint,
                *destination,
                *authority,
                amount,
                decimals,
            ),
            Err(e) => token_program@ != token_program_id() && e
                == ProgramError::IncorrectProgramId,
        },
{
    let key = solana_program::pubkey::Pubkey::new_from_array;
    match spl_token::instruction::transfer_checked(
        &key(token_program.0), &key(source.0), &key(mint.0), &key(destination.0),
        &key(authority.0), &[], amount, decimals,
    ) {
        Ok(built) => Ok(Instruction {
            program_id: Pubkey(built.program_id.to_bytes()),
            accounts: built.accounts.iter().map(
                |m| AccountMeta::from_parts(m.pubkey.to_bytes(), m.is_signer, m.is_writable),
            ).collect(),
            data: built.data,
        }),
        Err(_) => Err(ProgramError::IncorrectProgramId),
    }
}

/// What the program hands to the token program, where it hands anything.
pub struct Transfer {
    pub amount: u64,
    pub decimals: u8,
    pub bump: u8,
}

/// What a request does, given the address derived for the program's
/// authority. The accounts are the source, the mint, the destination, the
/// authority and the token program. The checks come in this order: the
/// accounts are there; the authority is the derived address; the source can
/// be read as a token account; the mint can be read; the program to ask is
/// the token program. The whole of what the source holds is moved.
pub open spec fn transfer_of(
    accounts: Seq<AccountInfoView>,
    derived: Option<(Seq<u8>, u8)>,
) -> Result<Transfer, ProgramError> {
    if accounts.len() < 5 {
        Err(ProgramError::NotEnoughAccountKeys)
    } else if !address_matches(derived, accounts[3].key) {
        Err(ProgramError::InvalidSeeds)
    } else {
        match token_account_amount(accounts[0].data) {
            Err(e) => Err(e),
            Ok(amount) => match mint_decimals(accounts[1].data) {
                Err(e) => Err(e),
                Ok(decimals) => if accounts[4].key@ != token_program_id() {
                    Err(ProgramError::IncorrectProgramId)
                } else {
                    Ok(Transfer { amount, decimals, bump: bump_of(derived) })
                },
            },
        }
    }
}

/// Whether a request that should lead to `transfer` ended in `result`: the
/// failure itself, or the request to the token program that carries out the
/// transfer, signed for the authority with its seed and bump seed.
pub open spec fn handed_on(
    transfer: Result<Transfer, ProgramError>,
    accounts: Seq<AccountInfoView>,
    result: Result<SignedInvocation, ProgramError>,
) -> bool {
    match transfer {
        Err(e) => result == Err::<SignedInvocation, ProgramError>(e),
        Ok(transfer) => {
            &&& result matches Ok(invocation)
            &&& is_transfer_checked(
                invocation.instruction,
                accounts[4].key,
                accounts[0].key,
                accounts[1].key,
                accounts[2].key,
                accounts[3].key,
                transfer.amount,
                transfer.decimals,
            )
            &&& invocation.signer_seeds.deep_view() == authority_seeds().push(seq![transfer.bump])
        },
    }
}

/// The seed of the program's authority, as the derivation takes it.
fn authority_seed_list() -> (seeds: Vec<Vec<u8>>)
    ensures
        seeds.deep_view() == authority_seeds(),
        seeds@.len() == 1,
{
    let mut seeds: Vec<Vec<u8>> = Vec::new();
    seeds.push(vec![97u8, 117u8, 116u8, 104u8, 111u8, 114u8, 105u8, 116u8, 121u8]);
    assert(seeds@[0].deep_view() =~= authority_seeds()[0]);
    assert(seeds.deep_view() =~= authority_seeds());
    seeds
}

/// Builds the request to the token program, given the address derived for
/// the program's authority. See `transfer_of` for what is checked.
pub fn transfer_with_authority(
    accounts: &[AccountInfo],
    derived: Option<(Pubkey, u8)>,
) -> (result: Result<SignedInvocation, ProgramError>)
    ensures
        handed_on(
            transfer_of(accounts.deep_view(), found_view(derived)),
            accounts.deep_view(),
            result,
        ),
{
    if accounts.len() < 5 {
        return Err(ProgramError::NotEnoughAccountKeys);
    }
    let source_account_info = &accounts[0];
    let mint_info = &accounts[1];
    let destination_account_info = &accounts[2];
    let authority_info = &accounts[3];
    let token_program_info = &accounts[4];
    let bump_seed = match derived {
        Some((expected_authority, bump_seed)) => {
            proof {
                if expected_authority@ == authority_info.key@ {
                    lemma_pubkey_ext(expected_authority, authority_info.key);
                }
            }
            if !(expected_authority == authority_info.key) {
                return Err(ProgramError::InvalidSeeds);
            }
            bump_seed
        },
        None => { return Err(ProgramError::InvalidSeeds); },
    };
    let transfer_amount = match spl_account_amount(source_account_info.data.as_slice()) {
        Ok(amount) => amount,
        Err(e) => { return Err(e); },
    };
    let decimals = match spl_mint_decimals(mint_info.data.as_slice()) {
        Ok(decimals) => decimals,
        Err(e) => { return Err(e); },
    };
    let instruction = match spl_transfer_checked(
        &token_program_info.key,
        &source_account_info.key,
        &mint_info.key,
        &destination_account_info.key,
        &authority_info.key,
        transfer_amount,
        decimals,
    ) {
        Ok(instruction) => instruction,
        Err(e) => { return Err(e); },
    };
    let mut signer_seeds = authority_seed_list();
    let ghost listed = signer_seeds;
    let mut bump: Vec<u8> = Vec::new();
    bump.push(bump_seed);
    signer_seeds.push(bump);
    assert(signer_seeds.deep_view() =~= listed.deep_view().push(seq![bump_seed])) by {
        assert(signer_seeds@[1].deep_view() =~= seq![bump_seed]);
    }
    Ok(SignedInvocation { instruction, signer_seeds })
}

/// Builds the request that moves what the first account holds to the third:
/// tokens of the mint in the second account, on the word of the program's
/// derived authority, the fourth, by the token program, the fifth. Nothing is
/// read from the request's bytes, and no account is changed: the transfer is
/// the token program's work. See `transfer_of` for what is checked.
pub fn process_instruction(
    program_id: &Pubkey,
    accounts: &[AccountInfo],
    _instruction_data: &[u8],
) -> (result: Result<SignedInvocation, ProgramError>)
    ensures
        handed_on(
            transfer_of(
                accounts.deep_view(),
                program_address(authority_seeds(), program_id@),
            ),
            accounts.deep_view(),
            result,
        ),
{
    let seeds = authority_seed_list();
    let derived = Pubkey::try_find_program_address(&seeds, program_id);
    transfer_with_authority(accounts, derived)
}

} // verus!
