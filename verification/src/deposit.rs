//! Deposit: move units from the caller into their vault.

use vstd::prelude::*;

use crate::account::{Account, AccountView, Pubkey};
use crate::errors::VaultError;
use crate::guards::{require_owner, require_signer};
use crate::instructions::{payload_amount, payload_nonce, Deposit, AMOUNT_PAYLOAD_LEN};
use crate::ledger::{transfer_in, transfer_in_spec};
use crate::pda::derived_address;
use crate::states::{VaultState, VAULT_RECORD_LEN};

verus! {

/// Accounts a Deposit request references: the owner (signer), the vault
/// sub-account and the balance-transfer service.
pub const DEPOSIT_ACCOUNT_COUNT: usize = 3;

/// What a Deposit request does to the caller and the vault: either the pair
/// of post-states, or the typed error rejecting the request. Checks run in
/// order — signature, payload layout, nonzero amount, derived address,
/// record layout, ownership — and only then the checked transfer.
pub open spec fn deposit_spec(
    user: AccountView,
    vault: AccountView,
    payload: Seq<u8>,
    program_id: Seq<u8>,
) -> Result<(AccountView, AccountView), VaultError> {
    if !user.is_signer {
        Err(VaultError::MissingSignature)
    } else if payload.len() != AMOUNT_PAYLOAD_LEN {
        Err(VaultError::InvalidInstructionData)
    } else if payload_amount(payload) == 0 {
        Err(VaultError::InvalidAmount)
    } else if derived_address(user.key, payload_nonce(payload), program_id) != vault.key {
        Err(VaultError::AddressMismatch)
    } else if vault.data.len() != VAULT_RECORD_LEN {
        Err(VaultError::InvalidAccountData)
    } else if vault.data != user.key {
        Err(VaultError::NotOwner)
    } else {
        match transfer_in_spec(user.lamports, vault.lamports, payload_amount(payload)) {
            Ok((u, v)) => Ok(
                (AccountView { lamports: u, ..user }, AccountView { lamports: v, ..vault }),
            ),
            Err(e) => Err(e),
        }
    }
}

/// Validate a Deposit request against the caller and the vault, then move
/// the amount from the caller's balance into the vault's. A failed request
/// changes neither account.
fn deposit_checked(
    user: &mut Account,
    vault: &mut Account,
    data: &[u8],
    program_id: &Pubkey,
) -> (r: Result<(), VaultError>)
    ensures
        match r {
            Ok(()) => deposit_spec(old(user)@, old(vault)@, data@, program_id@) == Ok::<
                (AccountView, AccountView),
                VaultError,
            >((final(user)@, final(vault)@)),
            Err(e) => deposit_spec(old(user)@, old(vault)@, data@, program_id@) == Err::<
                (AccountView, AccountView),
                VaultError,
            >(e) && *final(user) == *old(user) && *final(vault) == *old(vault),
        },
{
    match require_signer(user) {
        Ok(()) => (),
        Err(e) => {
            return Err(e);
        },
    }
    let d = match Deposit::load(data) {
        Ok(d) => d,
        Err(e) => {
            return Err(e);
        },
    };
    if d.amount == 0 {
        return Err(VaultError::InvalidAmount);
    }
    match VaultState::validate_pda(d.bump, &vault.key, &user.key, program_id) {
        Ok(()) => (),
        Err(e) => {
            return Err(e);
        },
    }
    let record = match VaultState::load(&vault.data) {
        Ok(s) => s,
        Err(e) => {
            return Err(e);
        },
    };
    match require_owner(&record, user) {
        Ok(()) => (),
        Err(e) => {
            return Err(e);
        },
    }
    transfer_in(&mut user.lamports, &mut vault.lamports, d.amount)
}

/// Handle a Deposit request against its account list.
///
/// `accounts` must reference, in order, the owner, the vault sub-account and
/// the balance-transfer service; any other count is rejected. On success the
/// first two accounts are replaced by their post-states and every other
/// account is untouched; on failure nothing changes.
pub fn deposit_to_vault(accounts: &mut Vec<Account>, data: &[u8], program_id: &Pubkey) -> (r:
    Result<(), VaultError>)
    ensures
        final(accounts)@.len() == old(accounts)@.len(),
        old(accounts)@.len() != DEPOSIT_ACCOUNT_COUNT ==> r == Err::<(), VaultError>(
            VaultError::NotEnoughAccountKeys,
        ) && final(accounts)@ == old(accounts)@,
        old(accounts)@.len() == DEPOSIT_ACCOUNT_COUNT ==> {
            &&& forall|i: int|
                2 <= i < old(accounts)@.len() ==> final(accounts)@[i] == old(accounts)@[i]
            &&& match r {
                Ok(()) => deposit_spec(old(accounts)@[0]@, old(accounts)@[1]@, data@, program_id@)
                    == Ok::<(AccountView, AccountView), VaultError>(
                    (final(accounts)@[0]@, final(accounts)@[1]@),
                ),
                Err(e) => deposit_spec(old(accounts)@[0]@, old(accounts)@[1]@, data@, program_id@)
                    == Err::<(AccountView, AccountView), VaultError>(e) && final(accounts)@ == old(
                    accounts,
                )@,
            }
        },
{
    if accounts.len() != DEPOSIT_ACCOUNT_COUNT {
        return Err(VaultError::NotEnoughAccountKeys);
    }
    let ghost orig = accounts@;
    let mut user = accounts.remove(0);
    let mut vault = accounts.remove(0);
    let r = deposit_checked(&mut user, &mut vault, data, program_id);
    accounts.insert(0, vault);
    accounts.insert(0, user);
    proof {
        assert(accounts@.len() == orig.len());
        assert(forall|i: int| 2 <= i < orig.len() ==> accounts@[i] == orig[i]);
        if r is Err {
            assert(accounts@ =~= orig);
        }
    }
    r
}

} // verus!
