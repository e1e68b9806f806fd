use ledger_programs::account_info::AccountInfo;
use ledger_programs::error::ProgramError;
use ledger_programs::pubkey::Pubkey;
use ledger_programs::review::instructions::{ReviewInstructions, ReviewPayload};
use ledger_programs::review::state::{AccountState, ReviewError};
use ledger_programs::review::{
    add_review, add_review_with_address, process_instruction, update_review,
    update_review_with_address, Allocation, Outcome, ACCOUNT_LEN,
};

fn program() -> Pubkey {
    Pubkey::new_from_array([42u8; 32])
}

fn caller() -> Pubkey {
    Pubkey::new_from_array([5u8; 32])
}

fn address_of(title: &str) -> (Pubkey, u8) {
    let seeds = vec![caller().to_vec(), title.as_bytes().to_vec()];
    Pubkey::try_find_program_address(&seeds, &program()).unwrap()
}

/// The initializer, the record's account for `title` holding `data`, and the
/// system program.
fn accounts_for(title: &str, data: Vec<u8>) -> Vec<AccountInfo> {
    let owner = if data.is_empty() { Pubkey::default() } else { program() };
    vec![
        AccountInfo::new(caller(), true, true, 1_000_000, Vec::new(), Pubkey::default(), false, 0),
        AccountInfo::new(address_of(title).0, false, true, 0, data, owner, false, 0),
        AccountInfo::new(Pubkey::default(), false, false, 1, Vec::new(), Pubkey::default(), true, 0),
    ]
}

fn request(tag: u8, title: &str, description: &str, rating: u8, location: &str) -> Vec<u8> {
    let mut bytes = vec![tag];
    bytes.extend(borsh::to_vec(&title.to_string()).unwrap());
    bytes.extend(borsh::to_vec(&description.to_string()).unwrap());
    bytes.push(rating);
    bytes.extend(borsh::to_vec(&location.to_string()).unwrap());
    bytes
}

fn stored(accounts: &[AccountInfo]) -> AccountState {
    AccountState::deserialize(&accounts[1].data).unwrap()
}

/// A record's account that holds the review "Pizza", "Great", 8.
fn reviewed() -> Vec<AccountInfo> {
    let mut accounts = accounts_for("Pizza", vec![0u8; 1000]);
    let outcome =
        add_review(&program(), &mut accounts, "Pizza".to_string(), "Great".to_string(), 8);
    assert!(matches!(outcome, Ok(Outcome::Stored)));
    accounts
}

#[test]
fn review_is_added_once() {
    let data = request(0, "Pizza", "Great", 8, "");
    let mut accounts = accounts_for("Pizza", Vec::new());

    let allocation = match process_instruction(&program(), &mut accounts, &data) {
        Ok(Outcome::Allocate(allocation)) => allocation,
        other => panic!("no storage was asked for: {:?}", other),
    };
    assert!(accounts[1].data.is_empty());
    assert_eq!(allocation.payer, caller());
    assert_eq!(allocation.address, address_of("Pizza").0);
    assert_eq!(allocation.space, 1000);
    assert_eq!(allocation.space, ACCOUNT_LEN);
    assert_eq!(allocation.owner, program());
    assert_eq!(
        allocation.signer_seeds,
        vec![vec![5u8; 32], b"Pizza".to_vec(), vec![address_of("Pizza").1]]
    );

    accounts[1].data = vec![0u8; allocation.space as usize];
    accounts[1].owner = allocation.owner;
    let outcome = process_instruction(&program(), &mut accounts, &data);
    assert!(matches!(outcome, Ok(Outcome::Stored)));
    let record = stored(&accounts);
    assert!(record.is_initialized);
    assert!(record.is_initialized());
    assert_eq!(record.title, "Pizza");
    assert_eq!(record.description, "Great");
    assert_eq!(record.rating, 8);
    assert_eq!(record.location, "");
    assert_eq!(accounts[1].data.len(), 1000);

    let written = accounts[1].data.clone();
    let second = process_instruction(&program(), &mut accounts, &data);
    assert!(matches!(second, Err(ProgramError::AccountAlreadyInitialized)));
    assert_eq!(accounts[1].data, written);

    let other = request(0, "Pizza", "Awful", 1, "Rome");
    let third = process_instruction(&program(), &mut accounts, &other);
    assert!(matches!(third, Err(ProgramError::AccountAlreadyInitialized)));
    assert_eq!(accounts[1].data, written);
}

#[test]
fn record_is_stored_as_borsh_stores_it() {
    let accounts = reviewed();
    let expected =
        borsh::to_vec(&(true, "Pizza".to_string(), "Great".to_string(), 8u8, String::new()))
            .unwrap();
    assert_eq!(accounts[1].data[..expected.len()], expected[..]);
    assert!(accounts[1].data[expected.len()..].iter().all(|byte| *byte == 0));
    assert_eq!(stored(&accounts).try_to_vec(), Some(expected));
}

#[test]
fn record_round_trips() {
    let record = AccountState {
        is_initialized: true,
        title: "Caf\u{e9} \u{1F355}".to_string(),
        description: "so-so".to_string(),
        rating: 200,
        location: "Lyon".to_string(),
    };
    let bytes = record.try_to_vec().unwrap();
    let mut longer = bytes.clone();
    longer.extend_from_slice(&[1, 2, 3]);
    for data in [bytes, longer] {
        let read = AccountState::deserialize(&data).unwrap();
        assert!(read.is_initialized);
        assert_eq!(read.title, "Caf\u{e9} \u{1F355}");
        assert_eq!(read.description, "so-so");
        assert_eq!(read.rating, 200);
        assert_eq!(read.location, "Lyon");
    }
}

#[test]
fn storage_of_zeros_holds_an_empty_review() {
    let read = AccountState::deserialize(&[0u8; 1000]).unwrap();
    assert!(!read.is_initialized);
    assert_eq!(read.title, "");
    assert_eq!(read.description, "");
    assert_eq!(read.rating, 0);
    assert_eq!(read.location, "");
}

#[test]
fn storage_that_is_no_review_is_not_read() {
    let unreadable = |data: &[u8]| {
        matches!(AccountState::deserialize(data), Err(ProgramError::BorshIoError))
    };
    assert!(unreadable(&[]));
    assert!(unreadable(&[2, 0, 0, 0, 0, 0, 0, 0, 0, 0, 0, 0, 0, 0]));
    assert!(unreadable(&[1, 0, 0, 0, 0, 0, 0, 0, 0]));
    assert!(unreadable(&[1, 0, 0, 0, 0, 0, 0, 0, 0, 9]));
    assert!(unreadable(&[1, 1, 0, 0, 0, 0xff, 0, 0, 0, 0, 9, 0, 0, 0, 0]));
    assert!(unreadable(&[1, 9, 0, 0, 0, b'a', 0, 0, 0, 0, 9, 0, 0, 0, 0]));
    assert!(!unreadable(&[1, 0, 0, 0, 0, 0, 0, 0, 0, 9, 0, 0, 0, 0]));
}

#[test]
fn title_stays_through_updates() {
    let mut accounts = reviewed();
    for (description, rating) in [("Good", 7u8), ("Bad", 0), ("Fine", 10), ("", 1), ("x", 11)] {
        let _ = update_review(&program(), &mut accounts, description.to_string(), rating);
        assert_eq!(stored(&accounts).title, "Pizza");
        assert!(stored(&accounts).is_initialized);
    }
    assert_eq!(stored(&accounts).description, "");
    assert_eq!(stored(&accounts).rating, 1);
}

#[test]
fn update_writes_description_and_rating() {
    let mut accounts = reviewed();
    let data = request(1, "ignored", "Even better", 9, "Naples");
    let outcome = process_instruction(&program(), &mut accounts, &data);
    assert!(matches!(outcome, Ok(Outcome::Stored)));
    let record = stored(&accounts);
    assert!(record.is_initialized);
    assert_eq!(record.title, "Pizza");
    assert_eq!(record.description, "Even better");
    assert_eq!(record.rating, 9);
    assert_eq!(record.location, "");
    let expected = borsh::to_vec(&(
        true,
        "Pizza".to_string(),
        "Even better".to_string(),
        9u8,
        String::new(),
    ))
    .unwrap();
    assert_eq!(accounts[1].data[..expected.len()], expected[..]);
    assert_eq!(accounts[1].data.len(), 1000);
}

#[test]
fn rating_outside_1_to_10_is_refused_on_add() {
    for rating in [0u8, 11, 255] {
        let mut accounts = accounts_for("Pizza", vec![0u8; 1000]);
        let outcome = add_review(
            &program(),
            &mut accounts,
            "Pizza".to_string(),
            "Great".to_string(),
            rating,
        );
        assert!(matches!(outcome, Err(ProgramError::Custom(1))));
        assert_eq!(accounts[1].data, vec![0u8; 1000]);

        let mut unallocated = accounts_for("Pizza", Vec::new());
        let outcome = add_review(
            &program(),
            &mut unallocated,
            "Pizza".to_string(),
            "Great".to_string(),
            rating,
        );
        assert!(matches!(outcome, Err(ProgramError::Custom(1))));
    }
}

#[test]
fn rating_outside_1_to_10_is_refused_on_update() {
    for rating in [0u8, 11, 255] {
        let mut accounts = reviewed();
        let before = accounts[1].data.clone();
        let outcome = update_review(&program(), &mut accounts, "Bad".to_string(), rating);
        assert!(matches!(outcome, Err(ProgramError::Custom(1))));
        assert_eq!(accounts[1].data, before);
    }
}

#[test]
fn ratings_1_and_10_are_accepted() {
    for rating in [1u8, 10] {
        let mut accounts = accounts_for("Pizza", vec![0u8; 1000]);
        let outcome = add_review(
            &program(),
            &mut accounts,
            "Pizza".to_string(),
            "Great".to_string(),
            rating,
        );
        assert!(matches!(outcome, Ok(Outcome::Stored)));
        assert_eq!(stored(&accounts).rating, rating);

        let mut accounts = reviewed();
        let outcome = update_review(&program(), &mut accounts, "Hm".to_string(), rating);
        assert!(matches!(outcome, Ok(Outcome::Stored)));
        assert_eq!(stored(&accounts).rating, rating);
    }
}

#[test]
fn add_needs_three_accounts_and_update_two() {
    let mut accounts = accounts_for("Pizza", vec![0u8; 1000]);
    accounts.pop();
    let outcome =
        add_review(&program(), &mut accounts, "Pizza".to_string(), "Great".to_string(), 8);
    assert!(matches!(outcome, Err(ProgramError::NotEnoughAccountKeys)));

    let mut accounts = reviewed();
    accounts.truncate(2);
    let outcome = update_review(&program(), &mut accounts, "Good".to_string(), 7);
    assert!(matches!(outcome, Ok(Outcome::Stored)));
    accounts.truncate(1);
    let outcome = update_review(&program(), &mut accounts, "Good".to_string(), 7);
    assert!(matches!(outcome, Err(ProgramError::NotEnoughAccountKeys)));
    let mut none: Vec<AccountInfo> = Vec::new();
    let outcome = process_instruction(&program(), &mut none, &request(0, "a", "b", 3, ""));
    assert!(matches!(outcome, Err(ProgramError::NotEnoughAccountKeys)));
}

#[test]
fn initializer_must_sign() {
    let mut accounts = accounts_for("Pizza", vec![0u8; 1000]);
    accounts[0].is_signer = false;
    let outcome =
        add_review(&program(), &mut accounts, "Pizza".to_string(), "Great".to_string(), 8);
    assert!(matches!(outcome, Err(ProgramError::MissingRequiredSignature)));
    assert_eq!(accounts[1].data, vec![0u8; 1000]);

    let mut accounts = reviewed();
    let before = accounts[1].data.clone();
    accounts[0].is_signer = false;
    let outcome = update_review(&program(), &mut accounts, "Good".to_string(), 7);
    assert!(matches!(outcome, Err(ProgramError::MissingRequiredSignature)));
    assert_eq!(accounts[1].data, before);
}

#[test]
fn record_must_be_at_the_derived_address() {
    let mut accounts = accounts_for("Pasta", vec![0u8; 1000]);
    let outcome =
        add_review(&program(), &mut accounts, "Pizza".to_string(), "Great".to_string(), 8);
    assert!(matches!(outcome, Err(ProgramError::Custom(2))));
    assert_eq!(accounts[1].data, vec![0u8; 1000]);

    let mut accounts = reviewed();
    let before = accounts[1].data.clone();
    accounts[1].key = address_of("Pasta").0;
    let outcome = update_review(&program(), &mut accounts, "Good".to_string(), 7);
    assert!(matches!(outcome, Err(ProgramError::Custom(2))));
    assert_eq!(accounts[1].data, before);

    let mut accounts = reviewed();
    accounts[0].key = Pubkey::new_from_array([6u8; 32]);
    let outcome = update_review(&program(), &mut accounts, "Good".to_string(), 7);
    assert!(matches!(outcome, Err(ProgramError::Custom(2))));
}

#[test]
fn title_too_long_for_a_seed_has_no_address() {
    let title = "a".repeat(33);
    let mut accounts = accounts_for("Pizza", vec![0u8; 1000]);
    let outcome = add_review(&program(), &mut accounts, title, "Great".to_string(), 8);
    assert!(matches!(outcome, Err(ProgramError::Custom(2))));
}

#[test]
fn update_needs_the_program_s_own_record() {
    let mut accounts = reviewed();
    let before = accounts[1].data.clone();
    accounts[1].owner = Pubkey::default();
    let outcome = update_review(&program(), &mut accounts, "Good".to_string(), 7);
    assert!(matches!(outcome, Err(ProgramError::IllegalOwner)));
    assert_eq!(accounts[1].data, before);
}

#[test]
fn update_needs_an_initialized_record() {
    let title = String::new();
    let mut accounts = accounts_for(&title, vec![0u8; 1000]);
    let outcome = update_review(&program(), &mut accounts, "Good".to_string(), 7);
    assert!(matches!(outcome, Err(ProgramError::Custom(0))));
    assert_eq!(accounts[1].data, vec![0u8; 1000]);
}

#[test]
fn unreadable_record_is_refused_and_kept() {
    let mut garbage = vec![0u8; 1000];
    garbage[0] = 7;
    let mut accounts = accounts_for("Pizza", garbage.clone());
    let outcome =
        add_review(&program(), &mut accounts, "Pizza".to_string(), "Great".to_string(), 8);
    assert!(matches!(outcome, Err(ProgramError::BorshIoError)));
    assert_eq!(accounts[1].data, garbage);
    let outcome = update_review(&program(), &mut accounts, "Good".to_string(), 7);
    assert!(matches!(outcome, Err(ProgramError::BorshIoError)));
    assert_eq!(accounts[1].data, garbage);
}

#[test]
fn review_that_does_not_fit_is_not_written() {
    let mut accounts = accounts_for("Pizza", vec![0u8; 1000]);
    let outcome =
        add_review(&program(), &mut accounts, "Pizza".to_string(), "x".repeat(1000), 8);
    assert!(matches!(outcome, Err(ProgramError::AccountDataTooSmall)));
    assert_eq!(accounts[1].data, vec![0u8; 1000]);

    // 1 + (4 + 5) + (4 + 977) + 1 + 4 = 996 bytes fit, one more text byte does too,
    // and the 1001st byte does not.
    let outcome = add_review(
        &program(),
        &mut accounts,
        "Pizza".to_string(),
        "x".repeat(981),
        8,
    );
    assert!(matches!(outcome, Ok(Outcome::Stored)));
    let before = accounts[1].data.clone();
    let outcome = update_review(&program(), &mut accounts, "y".repeat(982), 8);
    assert!(matches!(outcome, Err(ProgramError::AccountDataTooSmall)));
    assert_eq!(accounts[1].data, before);
    let outcome = update_review(&program(), &mut accounts, "y".repeat(981), 8);
    assert!(matches!(outcome, Ok(Outcome::Stored)));
    assert_eq!(stored(&accounts).description, "y".repeat(981));
}

#[test]
fn update_leaves_what_lies_behind_the_record() {
    let mut accounts = reviewed();
    let outcome = update_review(&program(), &mut accounts, "Very long words".to_string(), 7);
    assert!(matches!(outcome, Ok(Outcome::Stored)));
    let long = accounts[1].data.clone();
    let outcome = update_review(&program(), &mut accounts, "Ok".to_string(), 7);
    assert!(matches!(outcome, Ok(Outcome::Stored)));
    let short =
        borsh::to_vec(&(true, "Pizza".to_string(), "Ok".to_string(), 7u8, String::new())).unwrap();
    assert_eq!(accounts[1].data[..short.len()], short[..]);
    assert_eq!(accounts[1].data[short.len()..], long[short.len()..]);
}

#[test]
fn given_address_decides() {
    let mut accounts = accounts_for("Pizza", vec![0u8; 1000]);
    let outcome = add_review_with_address(
        &program(),
        &mut accounts,
        "Pizza".to_string(),
        "Great".to_string(),
        8,
        None,
    );
    assert!(matches!(outcome, Err(ProgramError::Custom(2))));
    let outcome = add_review_with_address(
        &program(),
        &mut accounts,
        "Pizza".to_string(),
        "Great".to_string(),
        8,
        Some((caller(), 3)),
    );
    assert!(matches!(outcome, Err(ProgramError::Custom(2))));
    let own = accounts[1].key;
    let outcome = add_review_with_address(
        &program(),
        &mut accounts,
        "Anything".to_string(),
        "Great".to_string(),
        8,
        Some((own, 3)),
    );
    assert!(matches!(outcome, Ok(Outcome::Stored)));
    assert_eq!(stored(&accounts).title, "Anything");

    let state = stored(&accounts);
    let outcome = update_review_with_address(
        &program(),
        &mut accounts,
        state,
        "Changed".to_string(),
        2,
        Some((own, 200)),
    );
    assert!(matches!(outcome, Ok(Outcome::Stored)));
    assert_eq!(stored(&accounts).description, "Changed");
    assert_eq!(stored(&accounts).title, "Anything");
    let state = stored(&accounts);
    let outcome = update_review_with_address(
        &program(),
        &mut accounts,
        state,
        "Again".to_string(),
        2,
        Some((caller(), 200)),
    );
    assert!(matches!(outcome, Err(ProgramError::Custom(2))));
}

#[test]
fn allocation_with_given_bump_seed() {
    let mut accounts = accounts_for("Pizza", Vec::new());
    let own = accounts[1].key;
    let outcome = add_review_with_address(
        &program(),
        &mut accounts,
        "Pizza".to_string(),
        "Great".to_string(),
        8,
        Some((own, 77)),
    );
    match outcome {
        Ok(Outcome::Allocate(allocation)) => {
            assert_eq!(
                allocation.signer_seeds,
                vec![vec![5u8; 32], b"Pizza".to_vec(), vec![77u8]]
            );
        }
        other => panic!("no storage was asked for: {:?}", other),
    }
}

#[test]
fn allocation_asks_the_system_program() {
    let allocation = Allocation {
        payer: caller(),
        address: address_of("Pizza").0,
        space: 1000,
        owner: program(),
        signer_seeds: Vec::new(),
    };
    let ix = allocation.instruction(7_850_880);
    assert_eq!(ix.program_id, Pubkey::default());
    assert_eq!(ix.accounts.len(), 2);
    assert_eq!(ix.accounts[0].pubkey, caller());
    assert!(ix.accounts[0].is_signer && ix.accounts[0].is_writable);
    assert_eq!(ix.accounts[1].pubkey, address_of("Pizza").0);
    assert!(ix.accounts[1].is_signer && ix.accounts[1].is_writable);
    let mut data = vec![0u8, 0, 0, 0];
    data.extend_from_slice(&7_850_880u64.to_le_bytes());
    data.extend_from_slice(&1000u64.to_le_bytes());
    data.extend_from_slice(&[42u8; 32]);
    assert_eq!(ix.data, data);
}

#[test]
fn review_requests_unpack() {
    let data = request(0, "Pizza", "Great", 8, "Rome");
    match ReviewInstructions::unpack(&data) {
        Ok(ReviewInstructions::AddReview { title, description, rating, location }) => {
            assert_eq!(title, "Pizza");
            assert_eq!(description, "Great");
            assert_eq!(rating, 8);
            assert_eq!(location, "Rome");
        }
        other => panic!("not a request to add: {:?}", other),
    }
    let data = request(1, "Sushi", "", 0, "");
    match ReviewInstructions::unpack(&data) {
        Ok(ReviewInstructions::UpdateReview { title, description, rating, location }) => {
            assert_eq!(title, "Sushi");
            assert_eq!(description, "");
            assert_eq!(rating, 0);
            assert_eq!(location, "");
        }
        other => panic!("not a request to update: {:?}", other),
    }
}

#[test]
fn malformed_review_requests_are_refused() {
    let refused = |data: &[u8]| {
        matches!(ReviewInstructions::unpack(data), Err(ProgramError::InvalidInstructionData))
    };
    assert!(refused(&[]));
    assert!(refused(&[0]));
    assert!(refused(&[2]));
    let good = request(0, "Pizza", "Great", 8, "Rome");
    assert!(!refused(&good));
    assert!(refused(&good[..good.len() - 1]));
    let mut trailing = good.clone();
    trailing.push(0);
    assert!(refused(&trailing));
    let mut unknown = good.clone();
    unknown[0] = 2;
    assert!(refused(&unknown));
    let mut no_utf8 = good.clone();
    no_utf8[5] = 0xff;
    assert!(refused(&no_utf8));
    assert!(refused(&request(0, "Pizza", "Great", 8, "")[..19]));

    let mut accounts = reviewed();
    let before = accounts[1].data.clone();
    let outcome = process_instruction(&program(), &mut accounts, &trailing);
    assert!(matches!(outcome, Err(ProgramError::InvalidInstructionData)));
    assert_eq!(accounts[1].data, before);
}

#[test]
fn payload_is_read_where_it_stands() {
    let data = request(9, "A", "B", 3, "C");
    let (payload, end) = ReviewPayload::read(&data, 1).unwrap();
    assert_eq!(payload.title, "A");
    assert_eq!(payload.description, "B");
    assert_eq!(payload.rating, 3);
    assert_eq!(payload.location, "C");
    assert_eq!(end, data.len());
    assert!(ReviewPayload::read(&data, 2).is_none());
}

#[test]
fn review_errors_have_codes_and_words() {
    assert_eq!(ReviewError::UninitializedAccount.code(), 0);
    assert_eq!(ReviewError::InvalidRating.code(), 1);
    assert_eq!(ReviewError::InvalidPDA.code(), 2);
    assert_eq!(ProgramError::from(ReviewError::UninitializedAccount), ProgramError::Custom(0));
    assert_eq!(ProgramError::from(ReviewError::InvalidRating), ProgramError::Custom(1));
    assert_eq!(ProgramError::from(ReviewError::InvalidPDA), ProgramError::Custom(2));
    assert_eq!(ReviewError::UninitializedAccount.message(), "Account not initialized");
    assert_eq!(ReviewError::InvalidRating.message(), "Rating must be between 1 and 10");
    assert_eq!(ReviewError::InvalidPDA.message(), "Invalid PDA");
}
