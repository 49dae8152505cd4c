//! The vault's guarantees, stated and proved across operations.
//!
//! Each operation's own contract pins down its result; the lemmas here state
//! the guarantees that only emerge from several operations together, or that
//! deserve to stand on their own: initialization happens exactly once, only
//! the owner moves funds, a deposit can always be withdrawn back, a close
//! drains the vault completely.

use vstd::prelude::*;

use crate::account::AccountView;
use crate::close::close_spec;
use crate::deposit::deposit_spec;
use crate::errors::VaultError;
use crate::init::init_spec;
use crate::instructions::{payload_amount, payload_nonce, AMOUNT_PAYLOAD_LEN, NONCE_PAYLOAD_LEN};
use crate::pda::derived_address;
use crate::states::VAULT_RECORD_LEN;
use crate::withdraw::withdraw_spec;

verus! {

/// Init is exactly-once: after any successful Init, a second Init on the
/// same sub-account fails with `AlreadyInitialized` — whoever the second
/// caller is, whatever nonce they present and whatever funding floor then
/// holds.
pub proof fn lemma_init_exactly_once(
    user1: AccountView,
    vault: AccountView,
    payload1: Seq<u8>,
    user2: AccountView,
    payload2: Seq<u8>,
    program_id: Seq<u8>,
    min_retained1: u64,
    min_retained2: u64,
    user1_post: AccountView,
    vault_post: AccountView,
)
    requires
        user1.wf(),
        init_spec(user1, vault, payload1, program_id, min_retained1) == Ok::<
            (AccountView, AccountView),
            VaultError,
        >((user1_post, vault_post)),
        user2.is_signer,
        payload2.len() == NONCE_PAYLOAD_LEN,
    ensures
        init_spec(user2, vault_post, payload2, program_id, min_retained2) == Err::<
            (AccountView, AccountView),
            VaultError,
        >(VaultError::AlreadyInitialized),
{
}

/// Deposit performed by any identity other than the recorded owner fails
/// with `NotOwner`, even with a valid signature.
pub proof fn lemma_deposit_requires_owner(
    user: AccountView,
    vault: AccountView,
    payload: Seq<u8>,
    program_id: Seq<u8>,
)
    requires
        user.is_signer,
        payload.len() == AMOUNT_PAYLOAD_LEN,
        payload_amount(payload) != 0,
        derived_address(user.key, payload_nonce(payload), program_id) == vault.key,
        vault.data.len() == VAULT_RECORD_LEN,
        vault.data != user.key,
    ensures
        deposit_spec(user, vault, payload, program_id) == Err::<
            (AccountView, AccountView),
            VaultError,
        >(VaultError::NotOwner),
{
}

/// Withdraw performed by any identity other than the recorded owner fails
/// with `NotOwner`, even with a valid signature.
pub proof fn lemma_withdraw_requires_owner(
    user: AccountView,
    vault: AccountView,
    payload: Seq<u8>,
    program_id: Seq<u8>,
    min_retained: u64,
)
    requires
        user.is_signer,
        payload.len() == AMOUNT_PAYLOAD_LEN,
        payload_amount(payload) != 0,
        derived_address(user.key, payload_nonce(payload), program_id) == vault.key,
        vault.data.len() == VAULT_RECORD_LEN,
        vault.data != user.key,
    ensures
        withdraw_spec(user, vault, payload, program_id, min_retained) == Err::<
            (AccountView, AccountView),
            VaultError,
        >(VaultError::NotOwner),
{
}

/// Close performed by any identity other than the recorded owner fails with
/// `NotOwner`, even with a valid signature.
pub proof fn lemma_close_requires_owner(
    user: AccountView,
    vault: AccountView,
    payload: Seq<u8>,
    program_id: Seq<u8>,
)
    requires
        user.is_signer,
        payload.len() == NONCE_PAYLOAD_LEN,
        derived_address(user.key, payload_nonce(payload), program_id) == vault.key,
        vault.data.len() == VAULT_RECORD_LEN,
        vault.data != user.key,
    ensures
        close_spec(user, vault, payload, program_id) == Err::<
            (AccountView, AccountView),
            VaultError,
        >(VaultError::NotOwner),
{
}

/// Round trip: a successful Deposit followed by a Withdraw of the same
/// amount succeeds and returns both accounts to exactly their pre-Deposit
/// states, whenever the withdrawal leaves the vault at or above the
/// retention floor.
pub proof fn lemma_deposit_withdraw_roundtrip(
    user: AccountView,
    vault: AccountView,
    payload: Seq<u8>,
    program_id: Seq<u8>,
    min_retained: u64,
    user_post: AccountView,
    vault_post: AccountView,
)
    requires
        deposit_spec(user, vault, payload, program_id) == Ok::<
            (AccountView, AccountView),
            VaultError,
        >((user_post, vault_post)),
        vault_post.lamports - payload_amount(payload) >= min_retained,
    ensures
        withdraw_spec(user_post, vault_post, payload, program_id, min_retained) == Ok::<
            (AccountView, AccountView),
            VaultError,
        >((user, vault)),
{
}

/// Withdraw fails with `InsufficientFunds` whenever the amount exceeds the
/// vault's balance, or paying it out would leave the vault below the
/// retention floor.
pub proof fn lemma_withdraw_insufficient(
    user: AccountView,
    vault: AccountView,
    payload: Seq<u8>,
    program_id: Seq<u8>,
    min_retained: u64,
)
    requires
        user.is_signer,
        payload.len() == AMOUNT_PAYLOAD_LEN,
        payload_amount(payload) != 0,
        derived_address(user.key, payload_nonce(payload), program_id) == vault.key,
        vault.data.len() == VAULT_RECORD_LEN,
        vault.data == user.key,
        payload_amount(payload) > vault.lamports || vault.lamports - payload_amount(payload)
            < min_retained,
    ensures
        withdraw_spec(user, vault, payload, program_id, min_retained) == Err::<
            (AccountView, AccountView),
            VaultError,
        >(VaultError::InsufficientFunds),
{
}

/// Deposit of a zero amount fails with `InvalidAmount`.
pub proof fn lemma_deposit_zero_amount(
    user: AccountView,
    vault: AccountView,
    payload: Seq<u8>,
    program_id: Seq<u8>,
)
    requires
        user.is_signer,
        payload.len() == AMOUNT_PAYLOAD_LEN,
        payload_amount(payload) == 0,
    ensures
        deposit_spec(user, vault, payload, program_id) == Err::<
            (AccountView, AccountView),
            VaultError,
        >(VaultError::InvalidAmount),
{
}

/// A successful Close moves the vault's entire balance to the caller and
/// leaves the vault balance at exactly zero, with its other fields — the
/// record included — untouched.
pub proof fn lemma_close_drains(
    user: AccountView,
    vault: AccountView,
    payload: Seq<u8>,
    program_id: Seq<u8>,
    user_post: AccountView,
    vault_post: AccountView,
)
    requires
        close_spec(user, vault, payload, program_id) == Ok::<
            (AccountView, AccountView),
            VaultError,
        >((user_post, vault_post)),
    ensures
        vault_post.lamports == 0,
        user_post.lamports == user.lamports + vault.lamports,
        vault_post.data == vault.data,
        vault_post.key == vault.key,
        user_post.key == user.key,
{
}

} // verus!
