//! State processors for a ledger: a counter, a review record and a token
//! transfer relay, each a function from a request and the accounts it names
//! to the accounts' next contents.

pub mod account_info;
pub mod codec;
pub mod counter;
pub mod error;
pub mod instruction;
pub mod pubkey;
pub mod review;
pub mod token_transfer;
