//! Withdraw: move units from the vault back to its owner, keeping the vault
//! at or above the host's minimum retained balance.

use vstd::prelude::*;

use crate::account::{Account, AccountView, Pubkey};
use crate::errors::VaultError;
use crate::guards::{require_owner, require_signer};
use crate::instructions::{payload_amount, payload_nonce, Withdraw, AMOUNT_PAYLOAD_LEN};
use crate::ledger::{transfer_out, transfer_out_spec};
use crate::pda::derived_address;
use crate::states::{VaultState, VAULT_RECORD_LEN};

verus! {

/// Accounts a Withdraw request references: the owner (signer), the vault
/// sub-account, the retention-rate oracle and the balance-transfer service.
pub const WITHDRAW_ACCOUNT_COUNT: usize = 4;

/// What a Withdraw request does to the caller and the vault: either the
/// pair of post-states, or the typed error rejecting the request.
/// `min_retained` is the balance floor the vault must keep to stay alive,
/// as the host's retention oracle reports it.
pub open spec fn withdraw_spec(
    user: AccountView,
    vault: AccountView,
    payload: Seq<u8>,
    program_id: Seq<u8>,
    min_retained: u64,
) -> Result<(AccountView, AccountView), VaultError> {
    if !user.is_signer {
        Err(VaultError::MissingSignature)
    } else if payload.len() != AMOUNT_PAYLOAD_LEN {
        Err(VaultError::InvalidInstructionData)
    } else if payload_amount(payload) == 0 {
        Err(VaultError::InvalidAmount)
    } else if derived_address(user.key, payload_nonce(payload), program_id) != vault.key {
        Err(VaultError::AddressMismatch)
    } else if vault.data.len() != VAULT_RECORD_LEN {
        Err(VaultError::InvalidAccountData)
    } else if vault.data != user.key {
        Err(VaultError::NotOwner)
    } else {
        match transfer_out_spec(vault.lamports, user.lamports, payload_amount(payload), min_retained) {
            Ok((v, u)) => Ok(
                (AccountView { lamports: u, ..user }, AccountView { lamports: v, ..vault }),
            ),
            Err(e) => Err(e),
        }
    }
}

/// Validate a Withdraw request against the caller and the vault, then move
/// the amount from the vault's balance back to the caller's. A failed
/// request changes neither account.
fn withdraw_checked(
    user: &mut Account,
    vault: &mut Account,
    data: &[u8],
    program_id: &Pubkey,
    min_retained: u64,
) -> (r: Result<(), VaultError>)
    ensures
        match r {
            Ok(()) => withdraw_spec(old(user)@, old(vault)@, data@, program_id@, min_retained)
                == Ok::<(AccountView, AccountView), VaultError>((final(user)@, final(vault)@)),
            Err(e) => withdraw_spec(old(user)@, old(vault)@, data@, program_id@, min_retained)
                == Err::<(AccountView, AccountView), VaultError>(e) && *final(user) == *old(user)
                && *final(vault) == *old(vault),
        },
{
    match require_signer(user) {
        Ok(()) => (),
        Err(e) => {
            return Err(e);
        },
    }
    let d = match Withdraw::load(data) {
        Ok(d) => d,
        Err(e) => {
            return Err(e);
        },
    };
    if d.amount == 0 {
        return Err(VaultError::InvalidAmount);
    }
    match VaultState::validate_pda(d.bump, &vault.key, &user.key, program_id) {
        Ok(()) => (),
        Err(e) => {
            return Err(e);
        },
    }
    let record = match VaultState::load(&vault.data) {
        Ok(s) => s,
        Err(e) => {
            return Err(e);
        },
    };
    match require_owner(&record, user) {
        Ok(()) => (),
        Err(e) => {
            return Err(e);
        },
    }
    transfer_out(&mut vault.lamports, &mut user.lamports, d.amount, min_retained)
}

/// Handle a Withdraw request against its account list.
///
/// `accounts` must reference, in order, the owner, the vault sub-account,
/// the retention-rate oracle and the balance-transfer service; any other
/// count is rejected. `min_retained` is the floor the oracle reports for a
/// record-sized account. On success the first two accounts are replaced by
/// their post-states and every other account is untouched; on failure
/// nothing changes.
pub fn withdraw_from_vault(
    accounts: &mut Vec<Account>,
    data: &[u8],
    program_id: &Pubkey,
    min_retained: u64,
) -> (r: Result<(), VaultError>)
    ensures
        final(accounts)@.len() == old(accounts)@.len(),
        old(accounts)@.len() != WITHDRAW_ACCOUNT_COUNT ==> r == Err::<(), VaultError>(
            VaultError::NotEnoughAccountKeys,
        ) && final(accounts)@ == old(accounts)@,
        old(accounts)@.len() == WITHDRAW_ACCOUNT_COUNT ==> {
            &&& forall|i: int|
                2 <= i < old(accounts)@.len() ==> final(accounts)@[i] == old(accounts)@[i]
            &&& match r {
                Ok(()) => withdraw_spec(
                    old(accounts)@[0]@,
                    old(accounts)@[1]@,
                    data@,
                    program_id@,
                    min_retained,
                ) == Ok::<(AccountView, AccountView), VaultError>(
                    (final(accounts)@[0]@, final(accounts)@[1]@),
                ),
                Err(e) => withdraw_spec(
                    old(accounts)@[0]@,
                    old(accounts)@[1]@,
                    data@,
                    program_id@,
                    min_retained,
                ) == Err::<(AccountView, AccountView), VaultError>(e) && final(accounts)@ == old(
                    accounts,
                )@,
            }
        },
{
    if accounts.len() != WITHDRAW_ACCOUNT_COUNT {
        return Err(VaultError::NotEnoughAccountKeys);
    }
    let ghost orig = accounts@;
    let mut user = accounts.remove(0);
    let mut vault = accounts.remove(0);
    let r = withdraw_checked(&mut user, &mut vault, data, program_id, min_retained);
    accounts.insert(0, vault);
    accounts.insert(0, user);
    proof {
        assert(accounts@.len() == orig.len());
        assert(forall|i: int| 2 <= i < orig.len() ==> accounts@[i] == orig[i]);
        if r is Err {
            assert(accounts@ =~= orig);
        }
    }
    r
}

} // verus!
