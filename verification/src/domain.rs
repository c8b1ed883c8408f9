//! The account model and the arithmetic it rests on.

pub mod bank_account;
pub mod clock;
pub mod ledger;
pub mod wrapping;
