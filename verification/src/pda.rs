//! Deterministic derivation of the vault sub-account address.
//!
//! The address of an owner's vault is a one-way function of the domain tag
//! `"vault"`, the owner's identity, a nonce byte and the program's own
//! identity. The host provides the function; the core calls it and treats
//! its result as a pure value. Every operation re-derives the address and
//! rejects the request when the supplied account differs — this is the sole
//! defense against substituting an arbitrary account for the real vault.

use vstd::prelude::*;

use crate::account::Pubkey;
use crate::errors::VaultError;

verus! {

/// The address derived for `(owner, nonce)` under `program_id`: the digest
/// of the domain tag, the owner, the nonce and the program identity. The
/// digest itself is left uninterpreted; all the logic needs is that it is a
/// function of these arguments alone.
pub uninterp spec fn derived_address(owner: Seq<u8>, nonce: u8, program_id: Seq<u8>) -> Seq<u8>;

/// Relies on `pinocchio_pubkey::derive_address_const`: the returned address
/// is the SHA-256 digest of the seeds (the tag `"vault"` and the owner), the
/// nonce byte, the program id and the derivation marker — a function of the
/// arguments alone, 32 bytes long.
#[verifier::external_body]
fn derive_raw(owner: &Pubkey, nonce: u8, program_id: &Pubkey) -> (r: Pubkey)
    ensures
        r@ == derived_address(owner@, nonce, program_id@),
{
    pinocchio_pubkey::derive_address_const(
        &[b"vault".as_slice(), owner.as_slice()],
        Some(nonce),
        program_id,
    )
}

/// Compute the vault address for `(owner, nonce)` under `program_id`.
///
/// Deterministic: two calls with the same inputs return the same address.
pub fn derive(owner: &Pubkey, nonce: u8, program_id: &Pubkey) -> (r: Pubkey)
    ensures
        r@ == derived_address(owner@, nonce, program_id@),
{
    derive_raw(owner, nonce, program_id)
}

/// Re-derive the vault address and compare it with the candidate.
pub fn validate_derived_address(
    nonce: u8,
    candidate: &Pubkey,
    owner: &Pubkey,
    program_id: &Pubkey,
) -> (r: Result<(), VaultError>)
    ensures
        r is Ok <==> derived_address(owner@, nonce, program_id@) == candidate@,
        r is Err ==> r == Err::<(), VaultError>(VaultError::AddressMismatch),
{
    let expected = derive(owner, nonce, program_id);
    if crate::account::pubkey_eq(&expected, candidate) {
        Ok(())
    } else {
        Err(VaultError::AddressMismatch)
    }
}

/// Address derivation is a pure function: any two results obtained for the
/// same owner, nonce and program identity are the same address.
pub proof fn lemma_derive_deterministic(
    r1: Seq<u8>,
    r2: Seq<u8>,
    owner: Seq<u8>,
    nonce: u8,
    program_id: Seq<u8>,
)
    requires
        r1 == derived_address(owner, nonce, program_id),
        r2 == derived_address(owner, nonce, program_id),
    ensures
        r1 == r2,
{
}

} // verus!
