//! A custodial balance vault on a shared ledger.
//!
//! Each owner holds exactly one vault sub-account per nonce byte, addressed
//! deterministically from the owner's identity. The vault supports four
//! operations — Init, Deposit, Withdraw and Close — each of which re-derives
//! and validates the vault address, checks authorization, and performs a
//! checked balance mutation. Every operation is specified as a total
//! function from the pre-state to either the post-state or a typed error,
//! and the executable code is verified against that specification.

pub mod account;
pub mod close;
pub mod deposit;
pub mod entrypoint;
pub mod errors;
pub mod guards;
pub mod init;
pub mod instructions;
pub mod laws;
pub mod ledger;
pub mod pda;
pub mod states;
pub mod withdraw;
