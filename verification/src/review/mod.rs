//! The review program: one record per initializer and title, at an address
//! derived from both.

pub mod instructions;
pub mod laws;
pub mod state;

use crate::account_info::{AccountInfo, AccountInfoView};
use crate::error::ProgramError;
use crate::instruction::{is_create_account, system_create_account, Instruction};
use crate::pubkey::{
    address_matches, bump_of, found_view, lemma_pubkey_ext, program_address, Pubkey,
};
use crate::review::instructions::{unpacked, ReviewInstructions, ReviewInstructionsView};
use crate::review::state::{review_at_front, AccountState, AccountStateView, ReviewError};
use vstd::prelude::*;
use vstd::slice::slice_to_vec;
use vstd::utf8::encode_utf8;

verus! {

/// The storage reserved for one review, in bytes, whatever its texts need.
pub const ACCOUNT_LEN: u64 = 1000;

/// The seeds of a review's address: the initializer's address and the title.
pub open spec fn review_seeds(initializer: Pubkey, title: Seq<char>) -> Seq<Seq<u8>> {
    seq![initializer@, encode_utf8(title)]
}

/// Whether a rating is one of 1 to 10.
pub open spec fn rating_in_range(rating: u8) -> bool {
    1 <= rating <= 10
}

/// Storage that a record needs before it can be written: the account at
/// `address` is to be created with `space` bytes, owned by `owner`, paid for
/// by `payer`. The program signs for the address with `signer_seeds`.
#[derive(Debug)]
pub struct Allocation {
    pub payer: Pubkey,
    pub address: Pubkey,
    pub space: u64,
    pub owner: Pubkey,
    pub signer_seeds: Vec<Vec<u8>>,
}

impl Allocation {
    /// The request to the system program that creates the storage, once the
    /// fee for it is known.
    pub fn instruction(&self, lamports: u64) -> (ix: Instruction)
        ensures
            is_create_account(ix, self.payer, self.address, lamports, self.space, self.owner),
    {
        system_create_account(&self.payer, &self.address, lamports, self.space, &self.owner)
    }
}

/// How a request ended that was not turned down.
#[derive(Debug)]
pub enum Outcome {
    /// The record was written; nothing is left to do.
    Stored,
    /// No storage exists at the record's address, and nothing was written.
    /// Once the storage is created, the same request writes the record.
    Allocate(Allocation),
}

/// What a request does to the accounts, as far as it is not turned down.
pub enum Effect {
    /// Nothing changes; storage is asked for, under the seeds of the record's
    /// address and this bump seed.
    Allocate { bump: u8 },
    /// The record's account stores `data`; nothing else changes.
    Store { data: Seq<u8> },
}

/// The review that an added review leaves in storage that held `current`.
pub open spec fn added_review(
    current: AccountStateView,
    title: Seq<char>,
    description: Seq<char>,
    rating: u8,
) -> AccountStateView {
    AccountStateView { is_initialized: true, title, description, rating, location: current.location }
}

/// The review that an update leaves in place of `current`: the title stays.
pub open spec fn updated_review(
    current: AccountStateView,
    description: Seq<char>,
    rating: u8,
) -> AccountStateView {
    AccountStateView { description, rating, ..current }
}

/// What adding a review does, given the address derived for it. The accounts
/// are the initializer, the record, and the system program. The checks come in
/// this order: the accounts are there, the initializer signed, the record is at
/// the derived address, the rating is in range. Then, where the record's
/// account has no storage, storage is asked for. Where it has, the review in
/// it must be readable and not initialized, and the new review must fit.
pub open spec fn add_review_effect(
    accounts: Seq<AccountInfoView>,
    title: Seq<char>,
    description: Seq<char>,
    rating: u8,
    derived: Option<(Seq<u8>, u8)>,
) -> Result<Effect, ProgramError> {
    if accounts.len() < 3 {
        Err(ProgramError::NotEnoughAccountKeys)
    } else if !accounts[0].is_signer {
        Err(ProgramError::MissingRequiredSignature)
    } else if !address_matches(derived, accounts[1].key) {
        Err(ProgramError::Custom(ReviewError::InvalidPDA.spec_code()))
    } else if !rating_in_range(rating) {
        Err(ProgramError::Custom(ReviewError::InvalidRating.spec_code()))
    } else if accounts[1].data.len() == 0 {
        Ok(Effect::Allocate { bump: bump_of(derived) })
    } else {
        match review_at_front(accounts[1].data) {
            None => Err(ProgramError::BorshIoError),
            Some(current) => if current.is_initialized {
                Err(ProgramError::AccountAlreadyInitialized)
            } else {
                match added_review(current, title, description, rating).stored_in(
                    accounts[1].data,
                ) {
                    None => Err(ProgramError::AccountDataTooSmall),
                    Some(data) => Ok(Effect::Store { data }),
                }
            },
        }
    }
}

/// What an update does to a record that was read as `current`, given the
/// address derived for it: the record is at the derived address, it is
/// initialized, the rating is in range, and the updated review fits.
pub open spec fn update_of(
    accounts: Seq<AccountInfoView>,
    current: AccountStateView,
    description: Seq<char>,
    rating: u8,
    derived: Option<(Seq<u8>, u8)>,
) -> Result<Effect, ProgramError> {
    if accounts.len() < 2 {
        Err(ProgramError::NotEnoughAccountKeys)
    } else if !address_matches(derived, accounts[1].key) {
        Err(ProgramError::Custom(ReviewError::InvalidPDA.spec_code()))
    } else if !current.is_initialized {
        Err(ProgramError::Custom(ReviewError::UninitializedAccount.spec_code()))
    } else if !rating_in_range(rating) {
        Err(ProgramError::Custom(ReviewError::InvalidRating.spec_code()))
    } else {
        match updated_review(current, description, rating).stored_in(accounts[1].data) {
            None => Err(ProgramError::AccountDataTooSmall),
            Some(data) => Ok(Effect::Store { data }),
        }
    }
}

/// What updating a review does. The accounts are the initializer and the
/// record. The checks come in this order: the accounts are there, the record
/// is owned by the program, the initializer signed, the record can be read; then
/// those of `update_of`, with the address derived from the initializer and the
/// title that the record holds.
pub open spec fn update_review_effect(
    program_id: Pubkey,
    accounts: Seq<AccountInfoView>,
    description: Seq<char>,
    rating: u8,
) -> Result<Effect, ProgramError> {
    if accounts.len() < 2 {
        Err(ProgramError::NotEnoughAccountKeys)
    } else if accounts[1].owner@ != program_id@ {
        Err(ProgramError::IllegalOwner)
    } else if !accounts[0].is_signer {
        Err(ProgramError::MissingRequiredSignature)
    } else {
        match review_at_front(accounts[1].data) {
            None => Err(ProgramError::BorshIoError),
            Some(current) => update_of(
                accounts,
                current,
                description,
                rating,
                program_address(review_seeds(accounts[0].key, current.title), program_id@),
            ),
        }
    }
}

/// Whether a request that should have `effect` on the accounts `before`
/// ended in `result` and left the accounts `after`. A request that is turned
/// down, or that asks for storage, changes nothing.
pub open spec fn carried_out(
    effect: Result<Effect, ProgramError>,
    program_id: Pubkey,
    title: Seq<char>,
    before: Seq<AccountInfoView>,
    result: Result<Outcome, ProgramError>,
    after: Seq<AccountInfoView>,
) -> bool {
    match effect {
        Err(e) => result == Err::<Outcome, ProgramError>(e) && after == before,
        Ok(Effect::Allocate { bump }) => {
            &&& result matches Ok(Outcome::Allocate(allocation))
            &&& allocation.payer == before[0].key
            &&& allocation.address == before[1].key
            &&& allocation.space == ACCOUNT_LEN
            &&& allocation.owner == program_id
            &&& allocation.signer_seeds.deep_view() == review_seeds(before[0].key, title).push(
                seq![bump],
            )
            &&& after == before
        },
        Ok(Effect::Store { data }) => {
            &&& result matches Ok(Outcome::Stored)
            &&& after == before.update(1, before[1].with_data(data))
        },
    }
}

/// The seeds of a review's address, as the derivation takes them.
fn review_seed_list(initializer: &Pubkey, title: &String) -> (seeds: Vec<Vec<u8>>)
    ensures
        seeds.deep_view() == review_seeds(*initializer, title@),
{
    let mut seeds: Vec<Vec<u8>> = Vec::new();
    seeds.push(initializer.to_vec());
    seeds.push(slice_to_vec(title.as_str().as_bytes()));
    assert(seeds@[0].deep_view() =~= initializer@);
    assert(seeds@[1].deep_view() =~= encode_utf8(title@));
    assert(seeds.deep_view() =~= review_seeds(*initializer, title@));
    seeds
}

/// Adds a review, given the address derived for the initializer and the title.
/// See `add_review_effect` for what is checked and what is written.
pub fn add_review_with_address(
    program_id: &Pubkey,
    accounts: &mut Vec<AccountInfo>,
    title: String,
    description: String,
    rating: u8,
    derived: Option<(Pubkey, u8)>,
) -> (result: Result<Outcome, ProgramError>)
    ensures
        carried_out(
            add_review_effect(
                old(accounts).deep_view(),
                title@,
                description@,
                rating,
                found_view(derived),
            ),
            *program_id,
            title@,
            old(accounts).deep_view(),
            result,
            final(accounts).deep_view(),
        ),
        final(accounts)@.len() == old(accounts)@.len(),
{
    if accounts.len() < 3 {
        return Err(ProgramError::NotEnoughAccountKeys);
    }
    if !accounts[0].is_signer {
        return Err(ProgramError::MissingRequiredSignature);
    }
    let bump = match derived {
        Some((address, bump)) => {
            proof {
                if address@ == accounts[1].key@ {
                    lemma_pubkey_ext(address, accounts[1].key);
                }
            }
            if !(address == accounts[1].key) {
                return Err(ProgramError::from(ReviewError::InvalidPDA));
            }
            bump
        },
        None => { return Err(ProgramError::from(ReviewError::InvalidPDA)); },
    };
    if rating < 1 || rating > 10 {
        return Err(ProgramError::from(ReviewError::InvalidRating));
    }
    if accounts[1].data.len() == 0 {
        let mut signer_seeds = review_seed_list(&accounts[0].key, &title);
        let ghost listed = signer_seeds;
        let mut bump_seed: Vec<u8> = Vec::new();
        bump_seed.push(bump);
        signer_seeds.push(bump_seed);
        assert(signer_seeds.deep_view() =~= listed.deep_view().push(seq![bump])) by {
            assert(listed.deep_view().len() == listed@.len());
            assert(signer_seeds@[listed@.len() as int].deep_view() =~= seq![bump]);
        }
        return Ok(
            Outcome::Allocate(
                Allocation {
                    payer: accounts[0].key,
                    address: accounts[1].key,
                    space: ACCOUNT_LEN,
                    owner: *program_id,
                    signer_seeds,
                },
            ),
        );
    }
    let mut account_state = match AccountState::deserialize(accounts[1].data.as_slice()) {
        Ok(state) => state,
        Err(e) => { return Err(e); },
    };
    if account_state.is_initialized {
        return Err(ProgramError::AccountAlreadyInitialized);
    }
    account_state.title = title;
    account_state.description = description;
    account_state.rating = rating;
    account_state.is_initialized = true;
    match account_state.serialize(&mut accounts[1].data) {
        Ok(()) => {
            assert(accounts.deep_view() =~= old(accounts).deep_view().update(
                1,
                old(accounts)[1]@.with_data(accounts[1].data@),
            ));
            Ok(Outcome::Stored)
        },
        Err(e) => {
            assert(accounts.deep_view() =~= old(accounts).deep_view());
            Err(e)
        },
    }
}

/// Adds a review of `title` by the first account, in the second account.
/// The record's address is derived from the initializer's address and the
/// title; see `add_review_effect` for what is checked and what is written.
/// Storage that is there but was never written must hold a readable review
/// that is not initialized, as storage of zeros does.
pub fn add_review(
    program_id: &Pubkey,
    accounts: &mut Vec<AccountInfo>,
    title: String,
    description: String,
    rating: u8,
) -> (result: Result<Outcome, ProgramError>)
    ensures
        carried_out(
            add_review_effect(
                old(accounts).deep_view(),
                title@,
                description@,
                rating,
                program_address(review_seeds(old(accounts)[0].key, title@), program_id@),
            ),
            *program_id,
            title@,
            old(accounts).deep_view(),
            result,
            final(accounts).deep_view(),
        ),
        final(accounts)@.len() == old(accounts)@.len(),
{
    if accounts.len() < 3 {
        return Err(ProgramError::NotEnoughAccountKeys);
    }
    let seeds = review_seed_list(&accounts[0].key, &title);
    let derived = Pubkey::try_find_program_address(&seeds, program_id);
    add_review_with_address(program_id, accounts, title, description, rating, derived)
}

/// Updates the review that was read from the second account as
/// `account_state`, given the address derived for the initializer and the
/// record's title. See `update_of` for what is checked and what is written.
pub fn update_review_with_address(
    program_id: &Pubkey,
    accounts: &mut Vec<AccountInfo>,
    account_state: AccountState,
    description: String,
    rating: u8,
    derived: Option<(Pubkey, u8)>,
) -> (result: Result<Outcome, ProgramError>)
    ensures
        carried_out(
            update_of(
                old(accounts).deep_view(),
                account_state@,
                description@,
                rating,
                found_view(derived),
            ),
            *program_id,
            account_state@.title,
            old(accounts).deep_view(),
            result,
            final(accounts).deep_view(),
        ),
        final(accounts)@.len() == old(accounts)@.len(),
{
    if accounts.len() < 2 {
        return Err(ProgramError::NotEnoughAccountKeys);
    }
    match derived {
        Some((address, _bump)) => {
            proof {
                if address@ == accounts[1].key@ {
                    lemma_pubkey_ext(address, accounts[1].key);
                }
            }
            if !(address == accounts[1].key) {
                return Err(ProgramError::from(ReviewError::InvalidPDA));
            }
        },
        None => { return Err(ProgramError::from(ReviewError::InvalidPDA)); },
    }
    if !account_state.is_initialized {
        return Err(ProgramError::from(ReviewError::UninitializedAccount));
    }
    if rating < 1 || rating > 10 {
        return Err(ProgramError::from(ReviewError::InvalidRating));
    }
    let mut account_state = account_state;
    account_state.description = description;
    account_state.rating = rating;
    match account_state.serialize(&mut accounts[1].data) {
        Ok(()) => {
            assert(accounts.deep_view() =~= old(accounts).deep_view().update(
                1,
                old(accounts)[1]@.with_data(accounts[1].data@),
            ));
            Ok(Outcome::Stored)
        },
        Err(e) => {
            assert(accounts.deep_view() =~= old(accounts).deep_view());
            Err(e)
        },
    }
}

/// Updates the description and the rating of the review in the second
/// account, written by the first. The title stays as it is. See
/// `update_review_effect` for what is checked and what is written.
pub fn update_review(
    program_id: &Pubkey,
    accounts: &mut Vec<AccountInfo>,
    description: String,
    rating: u8,
) -> (result: Result<Outcome, ProgramError>)
    ensures
        carried_out(
            update_review_effect(*program_id, old(accounts).deep_view(), description@, rating),
            *program_id,
            Seq::empty(),
            old(accounts).deep_view(),
            result,
            final(accounts).deep_view(),
        ),
        final(accounts)@.len() == old(accounts)@.len(),
{
    if accounts.len() < 2 {
        return Err(ProgramError::NotEnoughAccountKeys);
    }
    proof {
        if accounts[1].owner@ == program_id@ {
            lemma_pubkey_ext(accounts[1].owner, *program_id);
        }
    }
    if !(accounts[1].owner == *program_id) {
        return Err(ProgramError::IllegalOwner);
    }
    if !accounts[0].is_signer {
        return Err(ProgramError::MissingRequiredSignature);
    }
    let account_state = match AccountState::deserialize(accounts[1].data.as_slice()) {
        Ok(state) => state,
        Err(e) => { return Err(e); },
    };
    let seeds = review_seed_list(&accounts[0].key, &account_state.title);
    let derived = Pubkey::try_find_program_address(&seeds, program_id);
    update_review_with_address(program_id, accounts, account_state, description, rating, derived)
}

/// What a request in bytes does: what the request it unpacks to does.
pub open spec fn request_effect(
    program_id: Pubkey,
    accounts: Seq<AccountInfoView>,
    instruction_data: Seq<u8>,
) -> Result<Effect, ProgramError> {
    match unpacked(instruction_data) {
        None => Err(ProgramError::InvalidInstructionData),
        Some(ReviewInstructionsView::AddReview { title, description, rating, location }) => {
            add_review_effect(
                accounts,
                title,
                description,
                rating,
                program_address(review_seeds(accounts[0].key, title), program_id@),
            )
        },
        Some(ReviewInstructionsView::UpdateReview { title, description, rating, location }) => {
            update_review_effect(program_id, accounts, description, rating)
        },
    }
}

/// The title that a request in bytes carries; empty where there is none.
pub open spec fn request_title(instruction_data: Seq<u8>) -> Seq<char> {
    match unpacked(instruction_data) {
        Some(request) => request.payload().title,
        None => Seq::empty(),
    }
}

/// Unpacks a request and carries it out: a review is added or updated. The
/// location that a request carries is not written, and the title that an
/// update carries is not read: the record is found by the title it holds.
pub fn process_instruction(
    program_id: &Pubkey,
    accounts: &mut Vec<AccountInfo>,
    instruction_data: &[u8],
) -> (result: Result<Outcome, ProgramError>)
    ensures
        carried_out(
            request_effect(*program_id, old(accounts).deep_view(), instruction_data@),
            *program_id,
            request_title(instruction_data@),
            old(accounts).deep_view(),
            result,
            final(accounts).deep_view(),
        ),
        final(accounts)@.len() == old(accounts)@.len(),
{
    let instruction = match ReviewInstructions::unpack(instruction_data) {
        Ok(instruction) => instruction,
        Err(e) => { return Err(e); },
    };
    match instruction {
        ReviewInstructions::AddReview { title, description, rating, location: _ } => add_review(
            program_id,
            accounts,
            title,
            description,
            rating,
        ),
        ReviewInstructions::UpdateReview {
            title: _,
            description,
            rating,
            location: _,
        } => update_review(program_id, accounts, description, rating),
    }
}

} // verus!
