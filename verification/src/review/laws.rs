//! What holds of the review program whatever the requests are.

use crate::account_info::AccountInfoView;
use crate::error::ProgramError;
use crate::pubkey::{address_matches, program_address, Pubkey};
use crate::review::state::{lemma_review_round_trip, review_at_front, ReviewError};
use crate::review::{
    add_review_effect, added_review, carried_out, rating_in_range, review_seeds,
    update_review_effect, updated_review, Effect, Outcome,
};
use vstd::prelude::*;

verus! {

/// The accounts that a request with `effect` leaves, having found `accounts`.
pub open spec fn accounts_after(
    effect: Result<Effect, ProgramError>,
    accounts: Seq<AccountInfoView>,
) -> Seq<AccountInfoView> {
    match effect {
        Ok(Effect::Store { data }) => accounts.update(1, accounts[1].with_data(data)),
        _ => accounts,
    }
}

/// The bytes that a request with `effect` writes; none where it writes
/// nothing.
pub open spec fn written(effect: Result<Effect, ProgramError>) -> Seq<u8> {
    match effect {
        Ok(Effect::Store { data }) => data,
        _ => Seq::empty(),
    }
}

/// One update as a request carries it: the new description and rating.
pub struct Update {
    pub description: Seq<char>,
    pub rating: u8,
}

/// The accounts after a series of updates, each carried out on what the one
/// before it left, whether it was turned down or not.
pub open spec fn after_updates(
    program_id: Pubkey,
    accounts: Seq<AccountInfoView>,
    updates: Seq<Update>,
) -> Seq<AccountInfoView>
    decreases updates.len(),
{
    if updates.len() == 0 {
        accounts
    } else {
        let before = after_updates(program_id, accounts, updates.drop_last());
        accounts_after(
            update_review_effect(
                program_id,
                before,
                updates.last().description,
                updates.last().rating,
            ),
            before,
        )
    }
}

/// A request that writes a review leaves storage from which that review is
/// read back, initialized.
pub proof fn lemma_added_review_is_stored(
    accounts: Seq<AccountInfoView>,
    title: Seq<char>,
    description: Seq<char>,
    rating: u8,
    derived: Option<(Seq<u8>, u8)>,
)
    requires
        add_review_effect(accounts, title, description, rating, derived) matches Ok(
            Effect::Store { .. },
        ),
    ensures
        rating_in_range(rating),
        written(add_review_effect(accounts, title, description, rating, derived)).len()
            == accounts[1].data.len(),
        review_at_front(
            written(add_review_effect(accounts, title, description, rating, derived)),
        ) == Some(
            added_review(review_at_front(accounts[1].data)->0, title, description, rating),
        ),
{
    let current = review_at_front(accounts[1].data)->0;
    let added = added_review(current, title, description, rating);
    let storage = accounts[1].data;
    lemma_review_round_trip(
        added,
        storage.subrange(added.bytes().len() as int, storage.len() as int),
    );
}

/// A review is initialized once. After a request has written a review, a
/// second request to add a review for the same initializer and title is turned
/// down as already initialized, whatever description and rating in range it
/// carries, and leaves every account as it was.
pub proof fn lemma_single_initialization(
    program_id: Pubkey,
    accounts: Seq<AccountInfoView>,
    title: Seq<char>,
    description: Seq<char>,
    rating: u8,
    derived: Option<(Seq<u8>, u8)>,
    second_description: Seq<char>,
    second_rating: u8,
    second_result: Result<Outcome, ProgramError>,
    left: Seq<AccountInfoView>,
)
    requires
        add_review_effect(accounts, title, description, rating, derived) matches Ok(
            Effect::Store { .. },
        ),
        rating_in_range(second_rating),
        carried_out(
            add_review_effect(
                accounts_after(
                    add_review_effect(accounts, title, description, rating, derived),
                    accounts,
                ),
                title,
                second_description,
                second_rating,
                derived,
            ),
            program_id,
            title,
            accounts_after(
                add_review_effect(accounts, title, description, rating, derived),
                accounts,
            ),
            second_result,
            left,
        ),
    ensures
        second_result == Err::<Outcome, ProgramError>(ProgramError::AccountAlreadyInitialized),
        left == accounts_after(
            add_review_effect(accounts, title, description, rating, derived),
            accounts,
        ),
{
    lemma_added_review_is_stored(accounts, title, description, rating, derived);
}

/// An update that is carried out keeps the title and the flag, and writes
/// the description and the rating it carries.
pub proof fn lemma_update_keeps_title(
    program_id: Pubkey,
    accounts: Seq<AccountInfoView>,
    description: Seq<char>,
    rating: u8,
)
    requires
        update_review_effect(program_id, accounts, description, rating) matches Ok(
            Effect::Store { .. },
        ),
    ensures
        accounts.len() >= 2,
        review_at_front(accounts[1].data) is Some,
        written(update_review_effect(program_id, accounts, description, rating)).len()
            == accounts[1].data.len(),
        review_at_front(written(update_review_effect(program_id, accounts, description, rating)))
            == Some(updated_review(review_at_front(accounts[1].data)->0, description, rating)),
{
    let current = review_at_front(accounts[1].data)->0;
    let updated = updated_review(current, description, rating);
    let storage = accounts[1].data;
    lemma_review_round_trip(
        updated,
        storage.subrange(updated.bytes().len() as int, storage.len() as int),
    );
}

/// The title of a review never changes. Whatever updates are asked for, and
/// whichever of them are turned down, the record holds the title it held
/// before them, and a record that was initialized stays so.
pub proof fn lemma_title_is_immutable(
    program_id: Pubkey,
    accounts: Seq<AccountInfoView>,
    updates: Seq<Update>,
)
    requires
        accounts.len() >= 2,
        review_at_front(accounts[1].data) is Some,
    ensures
        after_updates(program_id, accounts, updates).len() == accounts.len(),
        review_at_front(after_updates(program_id, accounts, updates)[1].data) is Some,
        review_at_front(after_updates(program_id, accounts, updates)[1].data)->0.title
            == review_at_front(accounts[1].data)->0.title,
        review_at_front(after_updates(program_id, accounts, updates)[1].data)->0.is_initialized
            == review_at_front(accounts[1].data)->0.is_initialized,
    decreases updates.len(),
{
    if updates.len() > 0 {
        lemma_title_is_immutable(program_id, accounts, updates.drop_last());
        let before = after_updates(program_id, accounts, updates.drop_last());
        let effect = update_review_effect(
            program_id,
            before,
            updates.last().description,
            updates.last().rating,
        );
        if effect matches Ok(Effect::Store { .. }) {
            lemma_update_keeps_title(
                program_id,
                before,
                updates.last().description,
                updates.last().rating,
            );
        }
    }
}

/// A rating in storage stays one of 1 to 10. Whatever updates are asked for,
/// and whichever of them are turned down, a record whose rating was in range
/// before them holds a rating in range after them.
pub proof fn lemma_rating_stays_in_range(
    program_id: Pubkey,
    accounts: Seq<AccountInfoView>,
    updates: Seq<Update>,
)
    requires
        accounts.len() >= 2,
        review_at_front(accounts[1].data) is Some,
        rating_in_range(review_at_front(accounts[1].data)->0.rating),
    ensures
        review_at_front(after_updates(program_id, accounts, updates)[1].data) is Some,
        rating_in_range(
            review_at_front(after_updates(program_id, accounts, updates)[1].data)->0.rating,
        ),
    decreases updates.len(),
{
    if updates.len() > 0 {
        lemma_rating_stays_in_range(program_id, accounts, updates.drop_last());
        lemma_title_is_immutable(program_id, accounts, updates.drop_last());
        let before = after_updates(program_id, accounts, updates.drop_last());
        let effect = update_review_effect(
            program_id,
            before,
            updates.last().description,
            updates.last().rating,
        );
        if effect matches Ok(Effect::Store { .. }) {
            lemma_update_keeps_title(
                program_id,
                before,
                updates.last().description,
                updates.last().rating,
            );
        }
    }
}

/// The rating decides between 1 and 10. A request to add a review that
/// passes the checks before the rating's is turned down for its rating if and
/// only if the rating is not one of 1 to 10.
pub proof fn lemma_add_rating_domain(
    accounts: Seq<AccountInfoView>,
    title: Seq<char>,
    description: Seq<char>,
    rating: u8,
    derived: Option<(Seq<u8>, u8)>,
)
    requires
        accounts.len() >= 3,
        accounts[0].is_signer,
        address_matches(derived, accounts[1].key),
    ensures
        add_review_effect(accounts, title, description, rating, derived) == Err::<
            Effect,
            ProgramError,
        >(ProgramError::Custom(ReviewError::InvalidRating.spec_code())) <==> !rating_in_range(
            rating,
        ),
{
}

/// An update of an initialized review that passes the checks before the
/// rating's is turned down for its rating if and only if the rating is not
/// one of 1 to 10.
pub proof fn lemma_update_rating_domain(
    program_id: Pubkey,
    accounts: Seq<AccountInfoView>,
    description: Seq<char>,
    rating: u8,
)
    requires
        accounts.len() >= 2,
        accounts[1].owner@ == program_id@,
        accounts[0].is_signer,
        review_at_front(accounts[1].data) is Some,
        review_at_front(accounts[1].data)->0.is_initialized,
        address_matches(
            program_address(
                review_seeds(accounts[0].key, review_at_front(accounts[1].data)->0.title),
                program_id@,
            ),
            accounts[1].key,
        ),
    ensures
        update_review_effect(program_id, accounts, description, rating) == Err::<
            Effect,
            ProgramError,
        >(ProgramError::Custom(ReviewError::InvalidRating.spec_code())) <==> !rating_in_range(
            rating,
        ),
{
}

/// A request that is turned down leaves every account as it was, byte for
/// byte.
pub proof fn lemma_failure_changes_nothing(
    effect: Result<Effect, ProgramError>,
    program_id: Pubkey,
    title: Seq<char>,
    before: Seq<AccountInfoView>,
    result: Result<Outcome, ProgramError>,
    after: Seq<AccountInfoView>,
)
    requires
        carried_out(effect, program_id, title, before, result, after),
        effect is Err || result is Err,
    ensures
        after == before,
        effect is Err,
        result == Err::<Outcome, ProgramError>(effect->Err_0),
{
}

} // verus!
