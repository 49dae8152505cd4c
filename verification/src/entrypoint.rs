//! Dispatch: route an inbound request to the operation its discriminator
//! byte selects.
//!
//! The host's entrypoint hands every request here as a list of referenced
//! accounts and the raw request bytes. The whole state machine is summed up
//! by [`process_spec`]: what any request does to the account list, or the
//! typed error rejecting it — a failed request leaves every account exactly
//! as it was.

use vstd::prelude::*;

use crate::account::{Account, AccountView, Pubkey};
use crate::close::{close_spec, close_vault, CLOSE_ACCOUNT_COUNT};
use crate::deposit::{deposit_spec, deposit_to_vault, DEPOSIT_ACCOUNT_COUNT};
use crate::errors::VaultError;
use crate::init::{init_spec, init_vault, INIT_ACCOUNT_COUNT};
use crate::instructions::{instruction_of, ProgramInstruction};
use crate::withdraw::{withdraw_from_vault, withdraw_spec, WITHDRAW_ACCOUNT_COUNT};

verus! {

/// The values of a list of accounts.
pub open spec fn account_views(accounts: Seq<Account>) -> Seq<AccountView> {
    accounts.map_values(|a: Account| a@)
}

/// What a raw request does to the referenced accounts: the list of
/// post-states, or the typed error rejecting the request. The first byte
/// selects the operation; the rest is its payload. Each operation reads the
/// caller at index zero and the vault sub-account at index one and touches
/// nothing else.
pub open spec fn process_spec(
    accounts: Seq<AccountView>,
    instruction_data: Seq<u8>,
    program_id: Seq<u8>,
    min_retained: u64,
) -> Result<Seq<AccountView>, VaultError> {
    if instruction_data.len() == 0 {
        Err(VaultError::InvalidInstructionData)
    } else {
        let payload = instruction_data.subrange(1, instruction_data.len() as int);
        match instruction_of(instruction_data[0]) {
            Ok(ProgramInstruction::Init) => {
                if accounts.len() != INIT_ACCOUNT_COUNT {
                    Err(VaultError::NotEnoughAccountKeys)
                } else {
                    match init_spec(accounts[0], accounts[1], payload, program_id, min_retained) {
                        Ok((u, v)) => Ok(accounts.update(0, u).update(1, v)),
                        Err(e) => Err(e),
                    }
                }
            },
            Ok(ProgramInstruction::Deposit) => {
                if accounts.len() != DEPOSIT_ACCOUNT_COUNT {
                    Err(VaultError::NotEnoughAccountKeys)
                } else {
                    match deposit_spec(accounts[0], accounts[1], payload, program_id) {
                        Ok((u, v)) => Ok(accounts.update(0, u).update(1, v)),
                        Err(e) => Err(e),
                    }
                }
            },
            Ok(ProgramInstruction::Withdraw) => {
                if accounts.len() != WITHDRAW_ACCOUNT_COUNT {
                    Err(VaultError::NotEnoughAccountKeys)
                } else {
                    match withdraw_spec(
                        accounts[0],
                        accounts[1],
                        payload,
                        program_id,
                        min_retained,
                    ) {
                        Ok((u, v)) => Ok(accounts.update(0, u).update(1, v)),
                        Err(e) => Err(e),
                    }
                }
            },
            Ok(ProgramInstruction::Close) => {
                if accounts.len() != CLOSE_ACCOUNT_COUNT {
                    Err(VaultError::NotEnoughAccountKeys)
                } else {
                    match close_spec(accounts[0], accounts[1], payload, program_id) {
                        Ok((u, v)) => Ok(accounts.update(0, u).update(1, v)),
                        Err(e) => Err(e),
                    }
                }
            },
            Err(e) => Err(e),
        }
    }
}

/// Handle one inbound request: decode the discriminator and hand the payload
/// to the selected operation.
///
/// `program_id` is this deployment's own identity, injected by the caller;
/// `min_retained` is the balance floor the host's retention oracle reports
/// for a record-sized account. On failure every account is exactly as it
/// was.
pub fn process_instruction(
    accounts: &mut Vec<Account>,
    instruction_data: &[u8],
    program_id: &Pubkey,
    min_retained: u64,
) -> (r: Result<(), VaultError>)
    ensures
        final(accounts)@.len() == old(accounts)@.len(),
        match r {
            Ok(()) => process_spec(
                account_views(old(accounts)@),
                instruction_data@,
                program_id@,
                min_retained,
            ) == Ok::<Seq<AccountView>, VaultError>(account_views(final(accounts)@)),
            Err(e) => process_spec(
                account_views(old(accounts)@),
                instruction_data@,
                program_id@,
                min_retained,
            ) == Err::<Seq<AccountView>, VaultError>(e) && final(accounts)@ == old(accounts)@,
        },
{
    let ghost orig = accounts@;
    if instruction_data.len() == 0 {
        return Err(VaultError::InvalidInstructionData);
    }
    let disc = instruction_data[0];
    let payload = vstd::slice::slice_subrange(instruction_data, 1, instruction_data.len());
    let ix = match ProgramInstruction::try_from(&disc) {
        Ok(ix) => ix,
        Err(e) => {
            return Err(e);
        },
    };
    let r = match ix {
        ProgramInstruction::Init => init_vault(accounts, payload, program_id, min_retained),
        ProgramInstruction::Deposit => deposit_to_vault(accounts, payload, program_id),
        ProgramInstruction::Withdraw => withdraw_from_vault(
            accounts,
            payload,
            program_id,
            min_retained,
        ),
        ProgramInstruction::Close => close_vault(accounts, payload, program_id),
    };
    proof {
        if r is Ok {
            assert(account_views(accounts@) =~= account_views(orig).update(
                0,
                accounts@[0]@,
            ).update(1, accounts@[1]@));
        } else {
            assert(account_views(accounts@) =~= account_views(orig));
        }
    }
    r
}

} // verus!
