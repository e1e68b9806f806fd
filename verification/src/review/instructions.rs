//! The requests of the review program and their byte form.

use crate::codec::{lemma_string_at_bytes, lemma_string_round_trip, read_string, string_at, string_bytes, string_fits};
use crate::error::ProgramError;
use vstd::prelude::*;

verus! {

/// The four arguments that both requests carry, and that a record stores.
#[derive(Debug)]
pub struct ReviewPayload {
    pub title: String,
    pub description: String,
    pub rating: u8,
    pub location: String,
}

/// The four arguments with their texts as sequences of characters.
pub struct ReviewPayloadView {
    pub title: Seq<char>,
    pub description: Seq<char>,
    pub rating: u8,
    pub location: Seq<char>,
}

impl View for ReviewPayload {
    type V = ReviewPayloadView;

    open spec fn view(&self) -> ReviewPayloadView {
        ReviewPayloadView {
            title: self.title@,
            description: self.description@,
            rating: self.rating,
            location: self.location@,
        }
    }
}

impl ReviewPayloadView {
    /// The title, the description, the rating as one byte, the location.
    pub open spec fn bytes(self) -> Seq<u8> {
        string_bytes(self.title) + string_bytes(self.description) + seq![self.rating]
            + string_bytes(self.location)
    }

    /// Whether each text is short enough for its length to be written.
    pub open spec fn fits(self) -> bool {
        string_fits(self.title) && string_fits(self.description) && string_fits(self.location)
    }
}

/// The four arguments that stand at `at` in `b`, and the place just behind
/// them; `None` where a text is cut short or is no UTF-8, or the rating is
/// missing.
pub open spec fn payload_at(b: Seq<u8>, at: int) -> Option<(ReviewPayloadView, int)> {
    match string_at(b, at) {
        Some((title, after_title)) => match string_at(b, after_title) {
            Some((description, after_description)) => if after_description < b.len() {
                match string_at(b, after_description + 1) {
                    Some((location, end)) => Some(
                        (
                            ReviewPayloadView {
                                title,
                                description,
                                rating: b[after_description],
                                location,
                            },
                            end,
                        ),
                    ),
                    None => None,
                }
            } else {
                None
            },
            None => None,
        },
        None => None,
    }
}

/// Arguments that were written are read back, wherever they stand among
/// other bytes.
pub proof fn lemma_payload_round_trip(before: Seq<u8>, p: ReviewPayloadView, after: Seq<u8>)
    requires
        p.fits(),
    ensures
        payload_at(before + p.bytes() + after, before.len() as int) == Some(
            (p, (before.len() + p.bytes().len()) as int),
        ),
{
    let b = before + p.bytes() + after;
    let t = string_bytes(p.title);
    let d = string_bytes(p.description);
    let l = string_bytes(p.location);
    let at = before.len() as int;
    let after_title = at + t.len();
    let after_description = after_title + d.len();
    let end = after_description + 1 + l.len();
    assert(string_at(b, at) == Some((p.title, after_title))) by {
        lemma_string_round_trip(before, p.title, d + seq![p.rating] + l + after);
        assert(b =~= before + t + (d + seq![p.rating] + l + after));
    }
    assert(string_at(b, after_title) == Some((p.description, after_description))) by {
        lemma_string_round_trip(before + t, p.description, seq![p.rating] + l + after);
        assert(b =~= (before + t) + d + (seq![p.rating] + l + after));
    }
    assert(string_at(b, after_description + 1) == Some((p.location, end))) by {
        lemma_string_round_trip(before + t + d + seq![p.rating], p.location, after);
        assert(b =~= (before + t + d + seq![p.rating]) + l + after);
    }
    assert(after_description < b.len() && b[after_description] == p.rating) by {
        assert(b =~= (before + t + d) + seq![p.rating] + (l + after));
    }
    assert(end == before.len() + p.bytes().len());
}

/// Where arguments are read, the bytes they were read from are the bytes of
/// those arguments.
pub proof fn lemma_payload_at_bytes(b: Seq<u8>, at: int, p: ReviewPayloadView, end: int)
    requires
        payload_at(b, at) == Some((p, end)),
    ensures
        p.fits(),
        0 <= at <= end <= b.len(),
        b.subrange(at, end) == p.bytes(),
{
    let (title, after_title) = string_at(b, at)->0;
    let (description, after_description) = string_at(b, after_title)->0;
    lemma_string_at_bytes(b, at, title, after_title);
    lemma_string_at_bytes(b, after_title, description, after_description);
    lemma_string_at_bytes(b, after_description + 1, p.location, end);
    assert(b.subrange(at, end) =~= b.subrange(at, after_title) + b.subrange(
        after_title,
        after_description,
    ) + b.subrange(after_description, after_description + 1) + b.subrange(
        after_description + 1,
        end,
    ));
    assert(b.subrange(after_description, after_description + 1) =~= seq![p.rating]);
}

impl ReviewPayload {
    /// Reads the four arguments that stand at `at`, and says where they end.
    pub fn read(input: &[u8], at: usize) -> (found: Option<(ReviewPayload, usize)>)
        ensures
            match found {
                Some((payload, end)) => payload_at(input@, at as int) == Some(
                    (payload@, end as int),
                ),
                None => payload_at(input@, at as int) is None,
            },
    {
        let (title, after_title) = match read_string(input, at) {
            Some(found) => found,
            None => { return None; },
        };
        let (description, after_description) = match read_string(input, after_title) {
            Some(found) => found,
            None => { return None; },
        };
        if after_description >= input.len() {
            return None;
        }
        let rating = input[after_description];
        let (location, end) = match read_string(input, after_description + 1) {
            Some(found) => found,
            None => { return None; },
        };
        Some((ReviewPayload { title, description, rating, location }, end))
    }
}

/// A request to the review program. Its bytes are a tag, 0 to add and 1 to
/// update, then the title, the description, the rating as one byte and the
/// location.
#[derive(Debug)]
pub enum ReviewInstructions {
    AddReview { title: String, description: String, rating: u8, location: String },
    UpdateReview { title: String, description: String, rating: u8, location: String },
}

/// A request with its texts as sequences of characters.
pub enum ReviewInstructionsView {
    AddReview { title: Seq<char>, description: Seq<char>, rating: u8, location: Seq<char> },
    UpdateReview { title: Seq<char>, description: Seq<char>, rating: u8, location: Seq<char> },
}

impl View for ReviewInstructions {
    type V = ReviewInstructionsView;

    open spec fn view(&self) -> ReviewInstructionsView {
        match *self {
            ReviewInstructions::AddReview { title, description, rating, location } => {
                ReviewInstructionsView::AddReview {
                    title: title@,
                    description: description@,
                    rating,
                    location: location@,
                }
            },
            ReviewInstructions::UpdateReview { title, description, rating, location } => {
                ReviewInstructionsView::UpdateReview {
                    title: title@,
                    description: description@,
                    rating,
                    location: location@,
                }
            },
        }
    }
}

impl ReviewInstructionsView {
    /// The tag that announces the request.
    pub open spec fn tag(self) -> u8 {
        match self {
            ReviewInstructionsView::AddReview { .. } => 0,
            ReviewInstructionsView::UpdateReview { .. } => 1,
        }
    }

    /// The four arguments that the request carries.
    pub open spec fn payload(self) -> ReviewPayloadView {
        match self {
            ReviewInstructionsView::AddReview { title, description, rating, location } => {
                ReviewPayloadView { title, description, rating, location }
            },
            ReviewInstructionsView::UpdateReview { title, description, rating, location } => {
                ReviewPayloadView { title, description, rating, location }
            },
        }
    }

    /// The request's bytes.
    pub open spec fn bytes(self) -> Seq<u8> {
        seq![self.tag()] + self.payload().bytes()
    }

    /// Whether each text is short enough for its length to be written.
    pub open spec fn fits(self) -> bool {
        self.payload().fits()
    }
}

/// The request with tag `tag` and arguments `payload`.
pub open spec fn request_of(tag: u8, payload: ReviewPayloadView) -> ReviewInstructionsView {
    if tag == 0 {
        ReviewInstructionsView::AddReview {
            title: payload.title,
            description: payload.description,
            rating: payload.rating,
            location: payload.location,
        }
    } else {
        ReviewInstructionsView::UpdateReview {
            title: payload.title,
            description: payload.description,
            rating: payload.rating,
            location: payload.location,
        }
    }
}

/// The request that `b` holds: a known tag, then the four arguments, then
/// nothing. `None` for anything else.
pub open spec fn unpacked(b: Seq<u8>) -> Option<ReviewInstructionsView> {
    if b.len() >= 1 && b[0] <= 1 {
        match payload_at(b, 1) {
            Some((payload, end)) => if end == b.len() {
                Some(request_of(b[0], payload))
            } else {
                None
            },
            None => None,
        }
    } else {
        None
    }
}

/// The bytes of a request unpack to that request.
pub proof fn lemma_unpack_round_trip(request: ReviewInstructionsView)
    requires
        request.fits(),
    ensures
        unpacked(request.bytes()) == Some(request),
{
    let b = request.bytes();
    lemma_payload_round_trip(seq![request.tag()], request.payload(), Seq::empty());
    assert(b =~= seq![request.tag()] + request.payload().bytes() + Seq::empty());
    assert(b[0] == request.tag());
}

/// Bytes that unpack to a request are the bytes of that request, and of no
/// other.
pub proof fn lemma_unpacked_bytes(b: Seq<u8>, request: ReviewInstructionsView)
    requires
        unpacked(b) == Some(request),
    ensures
        request.fits(),
        request.bytes() == b,
{
    lemma_payload_at_bytes(b, 1, request.payload(), b.len() as int);
    assert(b =~= seq![b[0]] + b.subrange(1, b.len() as int));
}

impl ReviewInstructions {
    /// Reads a request from its bytes. Bytes that are not exactly the bytes
    /// of one request are refused.
    pub fn unpack(input: &[u8]) -> (request: Result<ReviewInstructions, ProgramError>)
        ensures
            match request {
                Ok(instruction) => unpacked(input@) == Some(instruction@),
                Err(e) => e == ProgramError::InvalidInstructionData && unpacked(input@) is None,
            },
    {
        if input.len() < 1 || input[0] > 1 {
            return Err(ProgramError::InvalidInstructionData);
        }
        let variant = input[0];
        let (payload, end) = match ReviewPayload::read(input, 1) {
            Some(found) => found,
            None => { return Err(ProgramError::InvalidInstructionData); },
        };
        if end != input.len() {
            return Err(ProgramError::InvalidInstructionData);
        }
        let ReviewPayload { title, description, rating, location } = payload;
        if variant == 0 {
            Ok(ReviewInstructions::AddReview { title, description, rating, location })
        } else {
            Ok(ReviewInstructions::UpdateReview { title, description, rating, location })
        }
    }
}

} // verus!
