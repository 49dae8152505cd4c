//! Init: create and fund an owner's vault sub-account and write its record.
//!
//! The caller funds the new sub-account with exactly the minimum retained
//! balance the host requires to keep a record-sized account alive, and the
//! record names the caller as the vault's sole owner.

use vstd::prelude::*;

use crate::account::{Account, AccountView, Pubkey};
use crate::errors::VaultError;
use crate::guards::require_signer;
use crate::instructions::{payload_nonce, Init, NONCE_PAYLOAD_LEN};
use crate::pda::derived_address;
use crate::states::VaultState;

verus! {

/// Accounts an Init request references: the owner (signer), the vault
/// sub-account, the retention-rate oracle and the account-creation service.
pub const INIT_ACCOUNT_COUNT: usize = 4;

/// What an Init request does to the caller and the vault: either the pair
/// of post-states — the caller down by the funding amount, the vault up by
/// it and holding the fresh record — or the typed error rejecting the
/// request. There is no owner to check yet; instead the sub-account must be
/// empty. `min_retained` is the funding the new sub-account needs to stay
/// alive, as the host's retention oracle reports it.
pub open spec fn init_spec(
    user: AccountView,
    vault: AccountView,
    payload: Seq<u8>,
    program_id: Seq<u8>,
    min_retained: u64,
) -> Result<(AccountView, AccountView), VaultError> {
    if !user.is_signer {
        Err(VaultError::MissingSignature)
    } else if payload.len() != NONCE_PAYLOAD_LEN {
        Err(VaultError::InvalidInstructionData)
    } else if vault.data.len() != 0 {
        Err(VaultError::AlreadyInitialized)
    } else if derived_address(user.key, payload_nonce(payload), program_id) != vault.key {
        Err(VaultError::AddressMismatch)
    } else if user.lamports < min_retained {
        Err(VaultError::InsufficientFunds)
    } else if vault.lamports + min_retained > u64::MAX {
        Err(VaultError::Overflow)
    } else {
        Ok(
            (
                AccountView { lamports: (user.lamports - min_retained) as u64, ..user },
                AccountView {
                    lamports: (vault.lamports + min_retained) as u64,
                    data: user.key,
                    ..vault
                },
            ),
        )
    }
}

/// Validate an Init request, fund the empty sub-account from the caller and
/// write the fresh record. A failed request changes neither account.
fn init_checked(
    user: &mut Account,
    vault: &mut Account,
    data: &[u8],
    program_id: &Pubkey,
    min_retained: u64,
) -> (r: Result<(), VaultError>)
    ensures
        match r {
            Ok(()) => init_spec(old(user)@, old(vault)@, data@, program_id@, min_retained) == Ok::<
                (AccountView, AccountView),
                VaultError,
            >((final(user)@, final(vault)@)),
            Err(e) => init_spec(old(user)@, old(vault)@, data@, program_id@, min_retained)
                == Err::<(AccountView, AccountView), VaultError>(e) && *final(user) == *old(user)
                && *final(vault) == *old(vault),
        },
{
    match require_signer(user) {
        Ok(()) => (),
        Err(e) => {
            return Err(e);
        },
    }
    let d = match Init::load(data) {
        Ok(d) => d,
        Err(e) => {
            return Err(e);
        },
    };
    if vault.data.len() != 0 {
        return Err(VaultError::AlreadyInitialized);
    }
    match VaultState::validate_pda(d.bump, &vault.key, &user.key, program_id) {
        Ok(()) => (),
        Err(e) => {
            return Err(e);
        },
    }
    if user.lamports < min_retained {
        return Err(VaultError::InsufficientFunds);
    }
    if vault.lamports > u64::MAX - min_retained {
        return Err(VaultError::Overflow);
    }
    user.lamports = user.lamports - min_retained;
    vault.lamports = vault.lamports + min_retained;
    match VaultState::initialize(vault, &user.key) {
        Ok(()) => Ok(()),
        Err(e) => {
            proof {
                assert(false);
            }
            Err(e)
        },
    }
}

/// Handle an Init request against its account list.
///
/// `accounts` must reference, in order, the owner, the vault sub-account,
/// the retention-rate oracle and the account-creation service; any other
/// count is rejected. On success the vault sub-account holds the funding
/// amount and the fresh record naming the caller, the caller's balance is
/// down by the funding amount and every other account is untouched; on
/// failure nothing changes.
pub fn init_vault(
    accounts: &mut Vec<Account>,
    data: &[u8],
    program_id: &Pubkey,
    min_retained: u64,
) -> (r: Result<(), VaultError>)
    ensures
        final(accounts)@.len() == old(accounts)@.len(),
        old(accounts)@.len() != INIT_ACCOUNT_COUNT ==> r == Err::<(), VaultError>(
            VaultError::NotEnoughAccountKeys,
        ) && final(accounts)@ == old(accounts)@,
        old(accounts)@.len() == INIT_ACCOUNT_COUNT ==> {
            &&& forall|i: int|
                2 <= i < old(accounts)@.len() ==> final(accounts)@[i] == old(accounts)@[i]
            &&& match r {
                Ok(()) => init_spec(
                    old(accounts)@[0]@,
                    old(accounts)@[1]@,
                    data@,
                    program_id@,
                    min_retained,
                ) == Ok::<(AccountView, AccountView), VaultError>(
                    (final(accounts)@[0]@, final(accounts)@[1]@),
                ),
                Err(e) => init_spec(
                    old(accounts)@[0]@,
                    old(accounts)@[1]@,
                    data@,
                    program_id@,
                    min_retained,
                ) == Err::<(AccountView, AccountView), VaultError>(e) && final(accounts)@ == old(
                    accounts,
                )@,
            }
        },
{
    if accounts.len() != INIT_ACCOUNT_COUNT {
        return Err(VaultError::NotEnoughAccountKeys);
    }
    let ghost orig = accounts@;
    let mut user = accounts.remove(0);
    let mut vault = accounts.remove(0);
    let r = init_checked(&mut user, &mut vault, data, program_id, min_retained);
    accounts.insert(0, vault);
    accounts.insert(0, user);
    proof {
        assert(accounts@.len() == orig.len());
        assert(forall|i: int| 2 <= i < orig.len() ==> accounts@[i] == orig[i]);
        if r is Err {
            assert(accounts@ =~= orig);
        }
    }
    r
}

} // verus!
