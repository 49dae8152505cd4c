//! Signer-presence and ownership checks shared by every operation.

use vstd::prelude::*;

use crate::account::Account;
use crate::errors::VaultError;
use crate::states::VaultState;

verus! {

/// Fail with `MissingSignature` unless the caller cryptographically
/// authorized this request. The host verifies the signature; this guard only
/// reads the flag it set.
pub fn require_signer(caller: &Account) -> (r: Result<(), VaultError>)
    ensures
        r is Ok <==> caller@.is_signer,
        r is Err ==> r == Err::<(), VaultError>(VaultError::MissingSignature),
{
    if caller.is_signer {
        Ok(())
    } else {
        Err(VaultError::MissingSignature)
    }
}

/// Fail with `NotOwner` unless the caller is the identity the record names.
pub fn require_owner(record: &VaultState, caller: &Account) -> (r: Result<(), VaultError>)
    ensures
        r is Ok <==> record@ == caller@.key,
        r is Err ==> r == Err::<(), VaultError>(VaultError::NotOwner),
{
    if record.is_owner(&caller.key) {
        Ok(())
    } else {
        Err(VaultError::NotOwner)
    }
}

} // verus!
