//! A minimal fungible-token ledger: a fixed supply of units, held by accounts
//! and moved between them, with the books proved to balance.

pub mod account;
pub mod ledger;
pub mod model;
pub mod storage;
pub mod sum;
