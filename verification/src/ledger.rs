//! Checked movement of native balance units between two accounts.
//!
//! All arithmetic is checked: an overflow or underflow is a terminal, typed
//! error, never clamped. A failed transfer changes neither balance.

use vstd::prelude::*;

use crate::errors::VaultError;

verus! {

/// What moving `amount` units from `from` into `to` yields: the two new
/// balances, or the error that rejects the transfer. A zero amount is
/// rejected first, then the checked addition on the destination, then the
/// checked subtraction on the source.
pub open spec fn transfer_in_spec(from: u64, to: u64, amount: u64) -> Result<
    (u64, u64),
    VaultError,
> {
    if amount == 0 {
        Err(VaultError::InvalidAmount)
    } else if to + amount > u64::MAX {
        Err(VaultError::Overflow)
    } else if from < amount {
        Err(VaultError::InsufficientFunds)
    } else {
        Ok(((from - amount) as u64, (to + amount) as u64))
    }
}

/// What moving `amount` units out of a vault holding `from` into `to`
/// yields, when the vault must keep at least `min_retained` units: the two
/// new balances, or the rejecting error. The preconditions are checked in
/// order: a nonzero amount, a balance covering the amount, a remainder at or
/// above the retention floor, and a destination that can take the amount.
pub open spec fn transfer_out_spec(from: u64, to: u64, amount: u64, min_retained: u64) -> Result<
    (u64, u64),
    VaultError,
> {
    if amount == 0 {
        Err(VaultError::InvalidAmount)
    } else if from < amount {
        Err(VaultError::InsufficientFunds)
    } else if from - amount < min_retained {
        Err(VaultError::InsufficientFunds)
    } else if to + amount > u64::MAX {
        Err(VaultError::Overflow)
    } else {
        Ok(((from - amount) as u64, (to + amount) as u64))
    }
}

/// What draining a vault holding `from` into `to` yields: the vault at zero
/// and the destination grown by the whole balance, or `Overflow` when the
/// destination cannot take it. No retention floor applies: the vault is
/// being emptied for reclamation.
pub open spec fn drain_all_spec(from: u64, to: u64) -> Result<(u64, u64), VaultError> {
    if to + from > u64::MAX {
        Err(VaultError::Overflow)
    } else {
        Ok((0u64, (to + from) as u64))
    }
}

/// Move `amount` units from the caller's balance into the vault's.
pub fn transfer_in(from: &mut u64, to: &mut u64, amount: u64) -> (r: Result<(), VaultError>)
    ensures
        match r {
            Ok(()) => transfer_in_spec(*old(from), *old(to), amount) == Ok::<(u64, u64), VaultError>(
                (*final(from), *final(to)),
            ),
            Err(e) => transfer_in_spec(*old(from), *old(to), amount) == Err::<(u64, u64), VaultError>(e)
                && *final(from) == *old(from) && *final(to) == *old(to),
        },
{
    if amount == 0 {
        return Err(VaultError::InvalidAmount);
    }
    if *to > u64::MAX - amount {
        return Err(VaultError::Overflow);
    }
    if *from < amount {
        return Err(VaultError::InsufficientFunds);
    }
    *from = *from - amount;
    *to = *to + amount;
    Ok(())
}

/// Move `amount` units from the vault's balance into the caller's, keeping
/// at least `min_retained` units in the vault.
pub fn transfer_out(from: &mut u64, to: &mut u64, amount: u64, min_retained: u64) -> (r: Result<
    (),
    VaultError,
>)
    ensures
        match r {
            Ok(()) => transfer_out_spec(*old(from), *old(to), amount, min_retained) == Ok::<
                (u64, u64),
                VaultError,
            >((*final(from), *final(to))),
            Err(e) => transfer_out_spec(*old(from), *old(to), amount, min_retained) == Err::<
                (u64, u64),
                VaultError,
            >(e) && *final(from) == *old(from) && *final(to) == *old(to),
        },
{
    if amount == 0 {
        return Err(VaultError::InvalidAmount);
    }
    if *from < amount {
        return Err(VaultError::InsufficientFunds);
    }
    if *from - amount < min_retained {
        return Err(VaultError::InsufficientFunds);
    }
    if *to > u64::MAX - amount {
        return Err(VaultError::Overflow);
    }
    *from = *from - amount;
    *to = *to + amount;
    Ok(())
}

/// Move the vault's entire balance into the caller's and zero the vault.
pub fn drain_all(from: &mut u64, to: &mut u64) -> (r: Result<(), VaultError>)
    ensures
        match r {
            Ok(()) => drain_all_spec(*old(from), *old(to)) == Ok::<(u64, u64), VaultError>(
                (*final(from), *final(to)),
            ),
            Err(e) => drain_all_spec(*old(from), *old(to)) == Err::<(u64, u64), VaultError>(e)
                && *final(from) == *old(from) && *final(to) == *old(to),
        },
{
    if *to > u64::MAX - *from {
        return Err(VaultError::Overflow);
    }
    *to = *to + *from;
    *from = 0;
    Ok(())
}

} // verus!
