//! Payment requests and scheduled charges on a shared ledger: the rules that
//! decide whether a record may be created, paid, executed or cancelled, and
//! what it looks like afterwards.
//!
//! The library moves no funds and stores nothing. An operation that moves
//! funds advances the record and hands back a [`transfer::TransferInstruction`];
//! the caller carries it out and must treat record and transfer as one unit.
//! Every function is verified against its contract; token accounts are read
//! with `anchor_spl`, behind one trusted function in [`token_account`].

pub mod errors;
pub mod instructions;
pub mod lifecycle;
pub mod pubkey;
pub mod state;
pub mod token_account;
pub mod transfer;
pub mod utils;
