//! The review record as it is stored, and the failures of the review program.

use crate::codec::{overwrite_front, write_string};
use crate::review::instructions::{
    lemma_payload_at_bytes, lemma_payload_round_trip, payload_at, ReviewPayload, ReviewPayloadView,
};
use crate::error::ProgramError;
use vstd::prelude::*;

verus! {

/// One review. The title names the reviewed place and, with the initializer's
/// address, fixes the address of the record: it never changes once written.
#[derive(Debug)]
pub struct AccountState {
    pub is_initialized: bool,
    pub title: String,
    pub description: String,
    pub rating: u8,
    pub location: String,
}

/// A review with its texts as sequences of characters.
pub struct AccountStateView {
    pub is_initialized: bool,
    pub title: Seq<char>,
    pub description: Seq<char>,
    pub rating: u8,
    pub location: Seq<char>,
}

impl View for AccountState {
    type V = AccountStateView;

    open spec fn view(&self) -> AccountStateView {
        AccountStateView {
            is_initialized: self.is_initialized,
            title: self.title@,
            description: self.description@,
            rating: self.rating,
            location: self.location@,
        }
    }
}

impl AccountStateView {
    /// The four fields behind the flag.
    pub open spec fn payload(self) -> ReviewPayloadView {
        ReviewPayloadView {
            title: self.title,
            description: self.description,
            rating: self.rating,
            location: self.location,
        }
    }

    /// The stored form: the flag as one byte, the title, the description, the
    /// rating as one byte, the location.
    pub open spec fn bytes(self) -> Seq<u8> {
        seq![if self.is_initialized { 1u8 } else { 0u8 }] + self.payload().bytes()
    }

    /// Whether each text is short enough for its length to be written.
    pub open spec fn fits(self) -> bool {
        self.payload().fits()
    }

    /// What `storage` holds once this review is written at its front: the
    /// review's bytes, then what the storage held behind them. `None` where
    /// the review has no stored form or the storage is too short for it.
    pub open spec fn stored_in(self, storage: Seq<u8>) -> Option<Seq<u8>> {
        if self.fits() && self.bytes().len() <= storage.len() {
            Some(self.bytes() + storage.subrange(self.bytes().len() as int, storage.len() as int))
        } else {
            None
        }
    }
}

/// The review that stands at the front of `b`; what follows it is not looked
/// at. `None` where the flag is neither 0 nor 1, a text is cut short or is no
/// UTF-8, or the rating is missing.
pub open spec fn review_at_front(b: Seq<u8>) -> Option<AccountStateView> {
    if b.len() >= 1 && b[0] <= 1 {
        match payload_at(b, 1) {
            Some((payload, end)) => Some(
                AccountStateView {
                    is_initialized: b[0] == 1,
                    title: payload.title,
                    description: payload.description,
                    rating: payload.rating,
                    location: payload.location,
                },
            ),
            None => None,
        }
    } else {
        None
    }
}

/// A review that was stored is read back as it was, whatever follows it.
pub proof fn lemma_review_round_trip(r: AccountStateView, after: Seq<u8>)
    requires
        r.fits(),
    ensures
        review_at_front(r.bytes() + after) == Some(r),
{
    let flag = seq![if r.is_initialized { 1u8 } else { 0u8 }];
    let b = r.bytes() + after;
    lemma_payload_round_trip(flag, r.payload(), after);
    assert(b =~= flag + r.payload().bytes() + after);
    assert(b[0] == flag[0]);
}

/// Where a review is read, the bytes begin with the stored form of that
/// review.
pub proof fn lemma_review_at_front_bytes(b: Seq<u8>, r: AccountStateView)
    requires
        review_at_front(b) == Some(r),
    ensures
        r.fits(),
        r.bytes().len() <= b.len(),
        b.subrange(0, r.bytes().len() as int) == r.bytes(),
{
    let (payload, end) = payload_at(b, 1)->0;
    lemma_payload_at_bytes(b, 1, payload, end);
    assert(payload == r.payload());
    assert(b.subrange(0, end) =~= seq![b[0]] + b.subrange(1, end));
}

impl AccountState {
    pub fn is_initialized(&self) -> (initialized: bool)
        ensures
            initialized == self.is_initialized,
    {
        self.is_initialized
    }

    /// Reads a review from the front of `data`.
    pub fn deserialize(data: &[u8]) -> (read: Result<AccountState, ProgramError>)
        ensures
            match read {
                Ok(state) => review_at_front(data@) == Some(state@),
                Err(e) => e == ProgramError::BorshIoError && review_at_front(data@) is None,
            },
    {
        if data.len() < 1 || data[0] > 1 {
            return Err(ProgramError::BorshIoError);
        }
        let is_initialized = data[0] == 1;
        match ReviewPayload::read(data, 1) {
            Some((payload, _end)) => {
                let ReviewPayload { title, description, rating, location } = payload;
                Ok(AccountState { is_initialized, title, description, rating, location })
            },
            None => Err(ProgramError::BorshIoError),
        }
    }

    /// The stored form of the review, where it has one.
    pub fn try_to_vec(&self) -> (encoded: Option<Vec<u8>>)
        ensures
            encoded is Some <==> self@.fits(),
            encoded matches Some(bytes) ==> bytes@ == self@.bytes(),
    {
        let mut out: Vec<u8> = Vec::new();
        out.push(if self.is_initialized { 1u8 } else { 0u8 });
        if !write_string(&mut out, &self.title) {
            return None;
        }
        if !write_string(&mut out, &self.description) {
            return None;
        }
        out.push(self.rating);
        if !write_string(&mut out, &self.location) {
            return None;
        }
        assert(out@ =~= self@.bytes());
        Some(out)
    }

    /// Writes the review at the front of `storage` and leaves what lies
    /// behind it. A review that does not fit is not written at all.
    pub fn serialize(&self, storage: &mut Vec<u8>) -> (written: Result<(), ProgramError>)
        ensures
            match self@.stored_in(old(storage)@) {
                Some(bytes) => written is Ok && final(storage)@ == bytes,
                None => written == Err::<(), ProgramError>(ProgramError::AccountDataTooSmall)
                    && final(storage)@ == old(storage)@,
            },
    {
        let encoded = match self.try_to_vec() {
            Some(bytes) => bytes,
            None => { return Err(ProgramError::AccountDataTooSmall); },
        };
        if encoded.len() > storage.len() {
            return Err(ProgramError::AccountDataTooSmall);
        }
        overwrite_front(storage, encoded.as_slice());
        Ok(())
    }
}

/// The failures that are the review program's own.
#[derive(Clone, Copy, Debug, PartialEq, Eq, Structural)]
pub enum ReviewError {
    /// The record to update was never written.
    UninitializedAccount,
    /// The rating is not one of 1 to 10.
    InvalidRating,
    /// The record's account is not at the address derived from the initializer
    /// and the title.
    InvalidPDA,
}

impl ReviewError {
    /// The number under which the failure is reported: the variant's place
    /// in the enumeration, from 0.
    pub open spec fn spec_code(self) -> u32 {
        match self {
            ReviewError::UninitializedAccount => 0,
            ReviewError::InvalidRating => 1,
            ReviewError::InvalidPDA => 2,
        }
    }

    #[verifier::when_used_as_spec(spec_code)]
    pub fn code(self) -> (code: u32)
        ensures
            code == self.spec_code(),
    {
        match self {
            ReviewError::UninitializedAccount => 0,
            ReviewError::InvalidRating => 1,
            ReviewError::InvalidPDA => 2,
        }
    }

    /// The failure in words.
    pub fn message(&self) -> (text: String)
        ensures
            text@ == match *self {
                ReviewError::UninitializedAccount => "Account not initialized"@,
                ReviewError::InvalidRating => "Rating must be between 1 and 10"@,
                ReviewError::InvalidPDA => "Invalid PDA"@,
            },
    {
        match self {
            ReviewError::UninitializedAccount => "Account not initialized".to_owned(),
            ReviewError::InvalidRating => "Rating must be between 1 and 10".to_owned(),
            ReviewError::InvalidPDA => "Invalid PDA".to_owned(),
        }
    }
}

impl From<ReviewError> for ProgramError {
    fn from(e: ReviewError) -> (error: ProgramError) {
        ProgramError::Custom(e.code())
    }
}

impl vstd::std_specs::convert::FromSpecImpl<ReviewError> for ProgramError {
    open spec fn obeys_from_spec() -> bool {
        true
    }

    open spec fn from_spec(e: ReviewError) -> ProgramError {
        ProgramError::Custom(e.spec_code())
    }
}

} // verus!
