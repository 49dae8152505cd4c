//! The typed failures an operation can end with.
//!
//! Every failure aborts the whole operation with no observable state change;
//! no error is ever downgraded to a default value.

use vstd::prelude::*;

verus! {

/// The reason an operation was rejected.
#[derive(Clone, Copy, Debug, PartialEq, Eq, Structural)]
pub enum VaultError {
    /// The request payload is malformed: unknown discriminator or a payload
    /// whose length does not match the operation's fixed layout.
    InvalidInstructionData,
    /// The request did not reference the number of accounts the operation
    /// needs.
    NotEnoughAccountKeys,
    /// The caller did not cryptographically authorize the request.
    MissingSignature,
    /// The re-derived vault address disagrees with the supplied account.
    AddressMismatch,
    /// Init was asked to create a vault in a sub-account that already holds
    /// data.
    AlreadyInitialized,
    /// The caller is not the owner recorded in the vault.
    NotOwner,
    /// A zero-amount transfer was requested.
    InvalidAmount,
    /// A checked addition on a balance would exceed the largest
    /// representable balance.
    Overflow,
    /// The source balance cannot cover the requested amount, or the vault
    /// would be left below its minimum retained balance.
    InsufficientFunds,
    /// The vault sub-account's bytes do not have the fixed record size.
    InvalidAccountData,
}

} // verus!
