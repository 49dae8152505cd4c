//! Close: drain the vault's entire balance back to its owner.
//!
//! No retention floor applies — the vault is emptied on purpose, so the host
//! may reclaim the sub-account afterwards.

use vstd::prelude::*;

use crate::account::{Account, AccountView, Pubkey};
use crate::errors::VaultError;
use crate::guards::{require_owner, require_signer};
use crate::instructions::{payload_nonce, Close, NONCE_PAYLOAD_LEN};
use crate::ledger::{drain_all, drain_all_spec};
use crate::pda::derived_address;
use crate::states::{VaultState, VAULT_RECORD_LEN};

verus! {

/// Accounts a Close request references: the owner (signer), the vault
/// sub-account and the balance-transfer service.
pub const CLOSE_ACCOUNT_COUNT: usize = 3;

/// What a Close request does to the caller and the vault: either the pair
/// of post-states — the vault at balance zero, the owner holding its whole
/// former balance — or the typed error rejecting the request.
pub open spec fn close_spec(
    user: AccountView,
    vault: AccountView,
    payload: Seq<u8>,
    program_id: Seq<u8>,
) -> Result<(AccountView, AccountView), VaultError> {
    if !user.is_signer {
        Err(VaultError::MissingSignature)
    } else if payload.len() != NONCE_PAYLOAD_LEN {
        Err(VaultError::InvalidInstructionData)
    } else if derived_address(user.key, payload_nonce(payload), program_id) != vault.key {
        Err(VaultError::AddressMismatch)
    } else if vault.data.len() != VAULT_RECORD_LEN {
        Err(VaultError::InvalidAccountData)
    } else if vault.data != user.key {
        Err(VaultError::NotOwner)
    } else {
        match drain_all_spec(vault.lamports, user.lamports) {
            Ok((v, u)) => Ok(
                (AccountView { lamports: u, ..user }, AccountView { lamports: v, ..vault }),
            ),
            Err(e) => Err(e),
        }
    }
}

/// Validate a Close request against the caller and the vault, then drain the
/// vault's balance into the caller's. A failed request changes neither
/// account.
fn close_checked(user: &mut Account, vault: &mut Account, data: &[u8], program_id: &Pubkey) -> (r:
    Result<(), VaultError>)
    ensures
        match r {
            Ok(()) => close_spec(old(user)@, old(vault)@, data@, program_id@) == Ok::<
                (AccountView, AccountView),
                VaultError,
            >((final(user)@, final(vault)@)),
            Err(e) => close_spec(old(user)@, old(vault)@, data@, program_id@) == Err::<
                (AccountView, AccountView),
                VaultError,
            >(e) && *final(user) == *old(user) && *final(vault) == *old(vault),
        },
{
    match require_signer(user) {
        Ok(()) => (),
        Err(e) => {
            return Err(e);
        },
    }
    let d = match Close::load(data) {
        Ok(d) => d,
        Err(e) => {
            return Err(e);
        },
    };
    match VaultState::validate_pda(d.bump, &vault.key, &user.key, program_id) {
        Ok(()) => (),
        Err(e) => {
            return Err(e);
        },
    }
    let record = match VaultState::load(&vault.data) {
        Ok(s) => s,
        Err(e) => {
            return Err(e);
        },
    };
    match require_owner(&record, user) {
        Ok(()) => (),
        Err(e) => {
            return Err(e);
        },
    }
    drain_all(&mut vault.lamports, &mut user.lamports)
}

/// Handle a Close request against its account list.
///
/// `accounts` must reference, in order, the owner, the vault sub-account and
/// the balance-transfer service; any other count is rejected. On success the
/// vault's balance is exactly zero, the owner holds its whole former balance
/// and every other account is untouched; on failure nothing changes.
pub fn close_vault(accounts: &mut Vec<Account>, data: &[u8], program_id: &Pubkey) -> (r: Result<
    (),
    VaultError,
>)
    ensures
        final(accounts)@.len() == old(accounts)@.len(),
        old(accounts)@.len() != CLOSE_ACCOUNT_COUNT ==> r == Err::<(), VaultError>(
            VaultError::NotEnoughAccountKeys,
        ) && final(accounts)@ == old(accounts)@,
        old(accounts)@.len() == CLOSE_ACCOUNT_COUNT ==> {
            &&& forall|i: int|
                2 <= i < old(accounts)@.len() ==> final(accounts)@[i] == old(accounts)@[i]
            &&& match r {
                Ok(()) => close_spec(old(accounts)@[0]@, old(accounts)@[1]@, data@, program_id@)
                    == Ok::<(AccountView, AccountView), VaultError>(
                    (final(accounts)@[0]@, final(accounts)@[1]@),
                ),
                Err(e) => close_spec(old(accounts)@[0]@, old(accounts)@[1]@, data@, program_id@)
                    == Err::<(AccountView, AccountView), VaultError>(e) && final(accounts)@ == old(
                    accounts,
                )@,
            }
        },
{
    if accounts.len() != CLOSE_ACCOUNT_COUNT {
        return Err(VaultError::NotEnoughAccountKeys);
    }
    let ghost orig = accounts@;
    let mut user = accounts.remove(0);
    let mut vault = accounts.remove(0);
    let r = close_checked(&mut user, &mut vault, data, program_id);
    accounts.insert(0, vault);
    accounts.insert(0, user);
    proof {
        assert(accounts@.len() == orig.len());
        assert(forall|i: int| 2 <= i < orig.len() ==> accounts@[i] == orig[i]);
        if r is Err {
            assert(accounts@ =~= orig);
        }
    }
    r
}

} // verus!
