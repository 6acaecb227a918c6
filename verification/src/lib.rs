//! A token-mint initialization program: one instruction that validates a mint
//! account and writes its authority into the account's packed binary state.

pub mod account;
pub mod error;
pub mod mint;
pub mod processor;
pub mod rent;
