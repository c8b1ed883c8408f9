//! A single bank account's ledger: an opening balance, an append-only
//! history of deposits and withdrawals, and a balance derived from both.

pub mod domain;
