//! The persisted vault record.
//!
//! A vault sub-account stores exactly one value: the identity of its owner,
//! byte for byte, with no padding and no version tag. A record exists iff
//! the sub-account holds data; Init is its only writer, so a sub-account
//! either is empty or holds a record of exactly [`VAULT_RECORD_LEN`] bytes.

use vstd::prelude::*;

use crate::account::{pubkey_eq, Account, AccountView, Pubkey};
use crate::errors::VaultError;
use crate::pda::validate_derived_address;

verus! {

/// Size in bytes of the persisted record: the single owner field.
pub const VAULT_RECORD_LEN: usize = 32;

/// The persisted state of one vault sub-account.
#[derive(Clone, Copy, Debug)]
pub struct VaultState {
    /// The sole identity authorized to deposit into, withdraw from and close
    /// this vault. Written once by Init and never changed.
    pub owner: Pubkey,
}

impl View for VaultState {
    type V = Seq<u8>;

    /// A record's value is its persisted layout: the owner's bytes.
    open spec fn view(&self) -> Seq<u8> {
        self.owner@
    }
}

impl VaultState {
    /// Decode a record from a sub-account's stored bytes.
    pub fn load(data: &Vec<u8>) -> (r: Result<VaultState, VaultError>)
        ensures
            r is Ok <==> data@.len() == VAULT_RECORD_LEN,
            r matches Ok(s) ==> s@ == data@,
            r is Err ==> r == Err::<VaultState, VaultError>(VaultError::InvalidAccountData),
    {
        if data.len() != VAULT_RECORD_LEN {
            return Err(VaultError::InvalidAccountData);
        }
        let mut owner: Pubkey = [0u8; 32];
        let mut i: usize = 0;
        while i < 32
            invariant
                i <= 32,
                data@.len() == 32,
                owner@.len() == 32,
                forall|j: int| 0 <= j < i ==> owner@[j] == data@[j],
            decreases 32 - i,
        {
            owner.set(i, data[i]);
            i += 1;
        }
        proof {
            assert(owner@ =~= data@);
        }
        Ok(VaultState { owner })
    }

    /// Write a fresh record with `owner` set into the sub-account.
    ///
    /// Fails when the sub-account already holds data; otherwise the
    /// sub-account's bytes become exactly the owner's identity.
    pub fn initialize(vault_acc: &mut Account, owner: &Pubkey) -> (r: Result<(), VaultError>)
        ensures
            r is Ok <==> old(vault_acc)@.data.len() == 0,
            r matches Err(e) ==> e == VaultError::AlreadyInitialized && *final(vault_acc) == *old(
                vault_acc,
            ),
            r is Ok ==> final(vault_acc)@ == (AccountView { data: owner@, ..old(vault_acc)@ }),
    {
        if vault_acc.data.len() != 0 {
            return Err(VaultError::AlreadyInitialized);
        }
        let mut record: Vec<u8> = Vec::new();
        let mut i: usize = 0;
        while i < 32
            invariant
                i <= 32,
                record@.len() == i,
                forall|j: int| 0 <= j < i ==> record@[j] == owner@[j],
            decreases 32 - i,
        {
            record.push(owner[i]);
            i += 1;
        }
        proof {
            assert(record@ =~= owner@);
        }
        vault_acc.data = record;
        Ok(())
    }

    /// Check that `pda` is the address derived for `(owner, bump)` under
    /// `program_id`; fail with `AddressMismatch` otherwise.
    pub fn validate_pda(bump: u8, pda: &Pubkey, owner: &Pubkey, program_id: &Pubkey) -> (r: Result<
        (),
        VaultError,
    >)
        ensures
            r is Ok <==> crate::pda::derived_address(owner@, bump, program_id@) == pda@,
            r is Err ==> r == Err::<(), VaultError>(VaultError::AddressMismatch),
    {
        validate_derived_address(bump, pda, owner, program_id)
    }

    /// Whether `caller` is the owner this record names.
    pub fn is_owner(&self, caller: &Pubkey) -> (r: bool)
        ensures
            r <==> self@ == caller@,
    {
        pubkey_eq(&self.owner, caller)
    }
}

} // verus!
