//! The binary request format.
//!
//! A request is one discriminator byte followed by a fixed-size, packed
//! little-endian payload specific to the operation: Init and Close carry a
//! single nonce byte, Deposit and Withdraw carry an amount (eight bytes,
//! little endian) followed by the nonce byte.

use vstd::prelude::*;

use crate::errors::VaultError;

verus! {

/// Payload length of an Init or Close request: the nonce byte.
pub const NONCE_PAYLOAD_LEN: usize = 1;

/// Payload length of a Deposit or Withdraw request: the amount and the
/// nonce byte.
pub const AMOUNT_PAYLOAD_LEN: usize = 9;

/// The operation a request selects.
#[derive(Clone, Copy, Debug, PartialEq, Eq, Structural)]
pub enum ProgramInstruction {
    Init,
    Deposit,
    Withdraw,
    Close,
}

/// The operation a discriminator byte selects, if any.
pub open spec fn instruction_of(value: u8) -> Result<ProgramInstruction, VaultError> {
    if value == 0 {
        Ok(ProgramInstruction::Init)
    } else if value == 1 {
        Ok(ProgramInstruction::Deposit)
    } else if value == 2 {
        Ok(ProgramInstruction::Withdraw)
    } else if value == 3 {
        Ok(ProgramInstruction::Close)
    } else {
        Err(VaultError::InvalidInstructionData)
    }
}

impl ProgramInstruction {
    /// Decode the discriminator byte; an unknown value is rejected.
    pub fn try_from(value: &u8) -> (r: Result<ProgramInstruction, VaultError>)
        ensures
            r == instruction_of(*value),
    {
        match *value {
            0 => Ok(ProgramInstruction::Init),
            1 => Ok(ProgramInstruction::Deposit),
            2 => Ok(ProgramInstruction::Withdraw),
            3 => Ok(ProgramInstruction::Close),
            _ => Err(VaultError::InvalidInstructionData),
        }
    }
}

/// The amount carried by a nine-byte payload.
pub open spec fn payload_amount(payload: Seq<u8>) -> u64
    recommends
        payload.len() == AMOUNT_PAYLOAD_LEN,
{
    vstd::bytes::spec_u64_from_le_bytes(payload.subrange(0, 8))
}

/// The nonce byte carried by a payload of either fixed layout.
pub open spec fn payload_nonce(payload: Seq<u8>) -> u8
    recommends
        payload.len() == NONCE_PAYLOAD_LEN || payload.len() == AMOUNT_PAYLOAD_LEN,
{
    payload.last()
}

/// The payload of an Init request.
#[derive(Clone, Copy, Debug, PartialEq, Eq, Structural)]
pub struct Init {
    /// Nonce byte completing the address derivation.
    pub bump: u8,
}

impl Init {
    /// Decode an Init payload; any other length is rejected.
    pub fn load(data: &[u8]) -> (r: Result<Init, VaultError>)
        ensures
            r is Ok <==> data@.len() == NONCE_PAYLOAD_LEN,
            r matches Ok(d) ==> d.bump == payload_nonce(data@),
            r is Err ==> r == Err::<Init, VaultError>(VaultError::InvalidInstructionData),
    {
        if data.len() != NONCE_PAYLOAD_LEN {
            return Err(VaultError::InvalidInstructionData);
        }
        Ok(Init { bump: data[0] })
    }
}

/// The payload of a Deposit request.
#[derive(Clone, Copy, Debug, PartialEq, Eq, Structural)]
pub struct Deposit {
    /// Units to move from the caller into the vault.
    pub amount: u64,
    /// Nonce byte completing the address derivation.
    pub bump: u8,
}

impl Deposit {
    /// Decode a Deposit payload; any other length is rejected.
    pub fn load(data: &[u8]) -> (r: Result<Deposit, VaultError>)
        ensures
            r is Ok <==> data@.len() == AMOUNT_PAYLOAD_LEN,
            r matches Ok(d) ==> d.amount == payload_amount(data@) && d.bump == payload_nonce(data@),
            r is Err ==> r == Err::<Deposit, VaultError>(VaultError::InvalidInstructionData),
    {
        if data.len() != AMOUNT_PAYLOAD_LEN {
            return Err(VaultError::InvalidInstructionData);
        }
        let amount_bytes = vstd::slice::slice_subrange(data, 0, 8);
        let amount = vstd::bytes::u64_from_le_bytes(amount_bytes);
        Ok(Deposit { amount, bump: data[8] })
    }
}

/// The payload of a Withdraw request.
#[derive(Clone, Copy, Debug, PartialEq, Eq, Structural)]
pub struct Withdraw {
    /// Units to move from the vault back to the caller.
    pub amount: u64,
    /// Nonce byte completing the address derivation.
    pub bump: u8,
}

impl Withdraw {
    /// Decode a Withdraw payload; any other length is rejected.
    pub fn load(data: &[u8]) -> (r: Result<Withdraw, VaultError>)
        ensures
            r is Ok <==> data@.len() == AMOUNT_PAYLOAD_LEN,
            r matches Ok(d) ==> d.amount == payload_amount(data@) && d.bump == payload_nonce(data@),
            r is Err ==> r == Err::<Withdraw, VaultError>(VaultError::InvalidInstructionData),
    {
        if data.len() != AMOUNT_PAYLOAD_LEN {
            return Err(VaultError::InvalidInstructionData);
        }
        let amount_bytes = vstd::slice::slice_subrange(data, 0, 8);
        let amount = vstd::bytes::u64_from_le_bytes(amount_bytes);
        Ok(Withdraw { amount, bump: data[8] })
    }
}

/// The payload of a Close request.
#[derive(Clone, Copy, Debug, PartialEq, Eq, Structural)]
pub struct Close {
    /// Nonce byte completing the address derivation.
    pub bump: u8,
}

impl Close {
    /// Decode a Close payload; any other length is rejected.
    pub fn load(data: &[u8]) -> (r: Result<Close, VaultError>)
        ensures
            r is Ok <==> data@.len() == NONCE_PAYLOAD_LEN,
            r matches Ok(d) ==> d.bump == payload_nonce(data@),
            r is Err ==> r == Err::<Close, VaultError>(VaultError::InvalidInstructionData),
    {
        if data.len() != NONCE_PAYLOAD_LEN {
            return Err(VaultError::InvalidInstructionData);
        }
        Ok(Close { bump: data[0] })
    }
}

} // verus!
