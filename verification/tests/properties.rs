//! The vault's guarantees on concrete values: determinism of the address
//! derivation, exactly-once initialization, owner-only mutation, the
//! deposit/withdraw round trip, the failure conditions of every typed error,
//! and the full lifecycle scenario.

use pinocchio_vault::account::{pubkey_eq, Account};
use pinocchio_vault::entrypoint::process_instruction;
use pinocchio_vault::errors::VaultError;
use pinocchio_vault::instructions::{Close, Deposit, Init, ProgramInstruction, Withdraw};
use pinocchio_vault::states::VaultState;

const PROGRAM: [u8; 32] = [7u8; 32];
const OWNER: [u8; 32] = [1u8; 32];
const INTRUDER: [u8; 32] = [4u8; 32];
const RENT_EXEMPT: u64 = 1_113_600;
const BUMP: u8 = 254;

fn signer(key: [u8; 32], lamports: u64) -> Account {
    Account {
        key,
        lamports,
        data: Vec::new(),
        is_signer: true,
    }
}

fn filler(key_byte: u8) -> Account {
    Account {
        key: [key_byte; 32],
        lamports: 0,
        data: Vec::new(),
        is_signer: false,
    }
}

/// A vault sub-account at the address derived for `(owner_of_address, bump)`
/// whose record names `record_owner`.
fn vault_account(owner_of_address: [u8; 32], record_owner: [u8; 32], lamports: u64) -> Account {
    Account {
        key: pinocchio_vault::pda::derive(&owner_of_address, BUMP, &PROGRAM),
        lamports,
        data: record_owner.to_vec(),
        is_signer: false,
    }
}

fn init_data(bump: u8) -> Vec<u8> {
    vec![0, bump]
}

fn deposit_data(amount: u64, bump: u8) -> Vec<u8> {
    let mut d = vec![1];
    d.extend_from_slice(&amount.to_le_bytes());
    d.push(bump);
    d
}

fn withdraw_data(amount: u64, bump: u8) -> Vec<u8> {
    let mut d = vec![2];
    d.extend_from_slice(&amount.to_le_bytes());
    d.push(bump);
    d
}

fn close_data(bump: u8) -> Vec<u8> {
    vec![3, bump]
}

fn run(accounts: &mut Vec<Account>, data: &[u8]) -> Result<(), VaultError> {
    process_instruction(accounts, data, &PROGRAM, RENT_EXEMPT)
}

/// Repeated derivations with the same inputs agree; changing the owner or
/// the nonce changes the address; and the result is a digest, not any of the
/// inputs handed through.
#[test]
fn derive_is_deterministic() {
    let a1 = pinocchio_vault::pda::derive(&OWNER, BUMP, &PROGRAM);
    let a2 = pinocchio_vault::pda::derive(&OWNER, BUMP, &PROGRAM);
    assert!(pubkey_eq(&a1, &a2));
    assert_ne!(pinocchio_vault::pda::derive(&INTRUDER, BUMP, &PROGRAM), a1);
    assert_ne!(pinocchio_vault::pda::derive(&OWNER, BUMP.wrapping_add(1), &PROGRAM), a1);
    assert_ne!(a1, OWNER);
    assert_ne!(a1, PROGRAM);
}

/// The library's derivation matches the host's own, seed for seed.
#[test]
fn derive_matches_host_derivation() {
    let ours = pinocchio_vault::pda::derive(&OWNER, BUMP, &PROGRAM);
    let host = pinocchio_pubkey::derive_address_const(
        &[b"vault".as_slice(), OWNER.as_slice()],
        Some(BUMP),
        &PROGRAM,
    );
    assert_eq!(ours, host);
}

/// A second Init on the same initialized sub-account fails with
/// `AlreadyInitialized`, whoever the second caller is.
#[test]
fn init_is_exactly_once() {
    let vault = Account {
        key: pinocchio_vault::pda::derive(&OWNER, BUMP, &PROGRAM),
        lamports: 0,
        data: Vec::new(),
        is_signer: false,
    };
    let mut accounts = vec![signer(OWNER, RENT_EXEMPT), vault, filler(2), filler(0)];
    assert!(run(&mut accounts, &init_data(BUMP)).is_ok());
    assert_eq!(accounts[1].data, OWNER.to_vec());

    // Same caller again.
    let mut again = vec![
        signer(OWNER, RENT_EXEMPT),
        accounts[1].clone(),
        filler(2),
        filler(0),
    ];
    assert_eq!(
        run(&mut again, &init_data(BUMP)),
        Err(VaultError::AlreadyInitialized)
    );

    // A different caller: still `AlreadyInitialized`, not an address error,
    // because the sub-account's contents are checked first.
    let mut other = vec![
        signer(INTRUDER, RENT_EXEMPT),
        accounts[1].clone(),
        filler(2),
        filler(0),
    ];
    assert_eq!(
        run(&mut other, &init_data(BUMP)),
        Err(VaultError::AlreadyInitialized)
    );
}

/// Deposit, Withdraw and Close by a signed caller who is not the recorded
/// owner fail with `NotOwner` and change nothing.
#[test]
fn non_owner_is_rejected() {
    // A vault at the intruder's derived address whose record names OWNER.
    let vault = vault_account(INTRUDER, OWNER, RENT_EXEMPT + 500);

    let mut accounts = vec![signer(INTRUDER, 1_000), vault.clone(), filler(0)];
    assert_eq!(
        run(&mut accounts, &deposit_data(500, BUMP)),
        Err(VaultError::NotOwner)
    );
    assert_eq!(accounts[0].lamports, 1_000);
    assert_eq!(accounts[1].lamports, RENT_EXEMPT + 500);

    let mut accounts = vec![signer(INTRUDER, 1_000), vault.clone(), filler(2), filler(0)];
    assert_eq!(
        run(&mut accounts, &withdraw_data(500, BUMP)),
        Err(VaultError::NotOwner)
    );
    assert_eq!(accounts[1].lamports, RENT_EXEMPT + 500);

    let mut accounts = vec![signer(INTRUDER, 1_000), vault.clone(), filler(0)];
    assert_eq!(
        run(&mut accounts, &close_data(BUMP)),
        Err(VaultError::NotOwner)
    );
    assert_eq!(accounts[1].lamports, RENT_EXEMPT + 500);
}

/// A Deposit followed by a Withdraw of the same amount returns both
/// balances exactly to their pre-Deposit values.
#[test]
fn deposit_withdraw_round_trip() {
    let vault = vault_account(OWNER, OWNER, RENT_EXEMPT);
    let owner_before: u64 = 10_000_000;
    let vault_before = vault.lamports;

    let mut accounts = vec![signer(OWNER, owner_before), vault, filler(0)];
    assert!(run(&mut accounts, &deposit_data(5_000, BUMP)).is_ok());
    assert_eq!(accounts[0].lamports, owner_before - 5_000);
    assert_eq!(accounts[1].lamports, vault_before + 5_000);

    let payer = accounts.remove(0);
    let vault = accounts.remove(0);
    let mut accounts = vec![payer, vault, filler(2), filler(0)];
    assert!(run(&mut accounts, &withdraw_data(5_000, BUMP)).is_ok());
    assert_eq!(accounts[0].lamports, owner_before);
    assert_eq!(accounts[1].lamports, vault_before);
}

/// Withdraw fails with `InsufficientFunds` when the amount exceeds the
/// balance, and when it would leave the vault below the retention floor.
#[test]
fn withdraw_insufficient_funds() {
    // More than the whole balance.
    let vault = vault_account(OWNER, OWNER, RENT_EXEMPT + 100);
    let mut accounts = vec![signer(OWNER, 0), vault, filler(2), filler(0)];
    assert_eq!(
        run(&mut accounts, &withdraw_data(RENT_EXEMPT + 101, BUMP)),
        Err(VaultError::InsufficientFunds)
    );

    // Within the balance, but breaching the retention floor.
    let vault = vault_account(OWNER, OWNER, RENT_EXEMPT + 100);
    let mut accounts = vec![signer(OWNER, 0), vault, filler(2), filler(0)];
    assert_eq!(
        run(&mut accounts, &withdraw_data(101, BUMP)),
        Err(VaultError::InsufficientFunds)
    );
}

/// A zero-amount Deposit fails with `InvalidAmount`; so does a zero-amount
/// Withdraw.
#[test]
fn zero_amount_is_rejected() {
    let vault = vault_account(OWNER, OWNER, RENT_EXEMPT);
    let mut accounts = vec![signer(OWNER, 1_000), vault.clone(), filler(0)];
    assert_eq!(
        run(&mut accounts, &deposit_data(0, BUMP)),
        Err(VaultError::InvalidAmount)
    );

    let mut accounts = vec![signer(OWNER, 1_000), vault, filler(2), filler(0)];
    assert_eq!(
        run(&mut accounts, &withdraw_data(0, BUMP)),
        Err(VaultError::InvalidAmount)
    );
}

/// Close moves the vault's entire balance to the owner and leaves the vault
/// at exactly zero.
#[test]
fn close_drains_vault() {
    let vault = vault_account(OWNER, OWNER, RENT_EXEMPT + 42);
    let mut accounts = vec![signer(OWNER, 1_000), vault, filler(0)];
    assert!(run(&mut accounts, &close_data(BUMP)).is_ok());
    assert_eq!(accounts[1].lamports, 0);
    assert_eq!(accounts[0].lamports, 1_000 + RENT_EXEMPT + 42);
}

/// Every remaining typed error, each from an input that provokes it.
#[test]
fn error_conditions() {
    // Empty request and unknown discriminator.
    let mut accounts = vec![signer(OWNER, 0), filler(3), filler(0)];
    assert_eq!(run(&mut accounts, &[]), Err(VaultError::InvalidInstructionData));
    assert_eq!(
        run(&mut accounts, &[9, BUMP]),
        Err(VaultError::InvalidInstructionData)
    );

    // Payload of the wrong length.
    let vault = vault_account(OWNER, OWNER, RENT_EXEMPT);
    let mut accounts = vec![signer(OWNER, 0), vault.clone(), filler(0)];
    assert_eq!(
        run(&mut accounts, &[1, 5, 0, 0]),
        Err(VaultError::InvalidInstructionData)
    );

    // Too few accounts.
    let mut accounts = vec![signer(OWNER, 0), vault.clone()];
    assert_eq!(
        run(&mut accounts, &deposit_data(5, BUMP)),
        Err(VaultError::NotEnoughAccountKeys)
    );

    // Caller did not sign.
    let mut unsigned = signer(OWNER, 1_000);
    unsigned.is_signer = false;
    let mut accounts = vec![unsigned, vault.clone(), filler(0)];
    assert_eq!(
        run(&mut accounts, &deposit_data(5, BUMP)),
        Err(VaultError::MissingSignature)
    );

    // Supplied account is not the derived address.
    let wrong_vault = Account {
        key: [8u8; 32],
        lamports: RENT_EXEMPT,
        data: OWNER.to_vec(),
        is_signer: false,
    };
    let mut accounts = vec![signer(OWNER, 1_000), wrong_vault, filler(0)];
    assert_eq!(
        run(&mut accounts, &deposit_data(5, BUMP)),
        Err(VaultError::AddressMismatch)
    );

    // A correctly addressed sub-account whose bytes are not a record.
    let unrecorded = Account {
        key: pinocchio_vault::pda::derive(&OWNER, BUMP, &PROGRAM),
        lamports: RENT_EXEMPT,
        data: vec![1, 2, 3],
        is_signer: false,
    };
    let mut accounts = vec![signer(OWNER, 1_000), unrecorded, filler(0)];
    assert_eq!(
        run(&mut accounts, &deposit_data(5, BUMP)),
        Err(VaultError::InvalidAccountData)
    );

    // Deposit overflowing the vault's balance.
    let full_vault = vault_account(OWNER, OWNER, u64::MAX);
    let mut accounts = vec![signer(OWNER, 1_000), full_vault, filler(0)];
    assert_eq!(
        run(&mut accounts, &deposit_data(5, BUMP)),
        Err(VaultError::Overflow)
    );

    // Deposit of more than the caller holds.
    let vault = vault_account(OWNER, OWNER, RENT_EXEMPT);
    let mut accounts = vec![signer(OWNER, 4), vault, filler(0)];
    assert_eq!(
        run(&mut accounts, &deposit_data(5, BUMP)),
        Err(VaultError::InsufficientFunds)
    );
}

/// The fixed payload layouts decode exactly.
#[test]
fn payload_decoding() {
    assert_eq!(
        ProgramInstruction::try_from(&1),
        Ok(ProgramInstruction::Deposit)
    );
    assert_eq!(
        ProgramInstruction::try_from(&4),
        Err(VaultError::InvalidInstructionData)
    );

    let d = Deposit::load(&[0x40, 0x42, 0x0f, 0, 0, 0, 0, 0, 7]).unwrap();
    assert_eq!(d.amount, 1_000_000);
    assert_eq!(d.bump, 7);
    assert_eq!(
        Deposit::load(&[1, 2, 3]),
        Err(VaultError::InvalidInstructionData)
    );

    let w = Withdraw::load(&[0xff; 9]).unwrap();
    assert_eq!(w.amount, u64::MAX);
    assert_eq!(w.bump, 0xff);
    assert_eq!(
        Withdraw::load(&[]),
        Err(VaultError::InvalidInstructionData)
    );

    assert_eq!(Init::load(&[9]).unwrap().bump, 9);
    assert_eq!(Init::load(&[9, 9]), Err(VaultError::InvalidInstructionData));
    assert_eq!(Close::load(&[3]).unwrap().bump, 3);
    assert_eq!(Close::load(&[]), Err(VaultError::InvalidInstructionData));

    let state = VaultState::load(&OWNER.to_vec()).unwrap();
    assert_eq!(state.owner, OWNER);
    assert!(VaultState::load(&vec![0; 31]).is_err());
}

/// The full lifecycle: Init on the empty sub-account at the derived address
/// succeeds and records the owner; Deposit moves exactly the amount; a
/// Withdraw that would dip below the retention floor fails with
/// `InsufficientFunds`; Close returns the whole balance.
#[test]
fn vault_lifecycle_scenario() {
    let vault_pda = pinocchio_vault::pda::derive(&OWNER, BUMP, &PROGRAM);
    let vault = Account {
        key: vault_pda,
        lamports: 0,
        data: Vec::new(),
        is_signer: false,
    };
    let owner_start: u64 = 1_000_000_000;

    // Init: success, record names the owner.
    let mut accounts = vec![signer(OWNER, owner_start), vault, filler(2), filler(0)];
    assert!(run(&mut accounts, &init_data(BUMP)).is_ok());
    assert_eq!(accounts[1].data, OWNER.to_vec());
    assert_eq!(accounts[1].lamports, RENT_EXEMPT);
    assert_eq!(accounts[0].lamports, owner_start - RENT_EXEMPT);
    let payer = accounts.remove(0);
    let vault = accounts.remove(0);

    // Deposit 50_000_000: vault up by exactly that, owner down by it.
    let deposit_amount: u64 = 50_000_000;
    let owner_pre_deposit = payer.lamports;
    let mut accounts = vec![payer, vault, filler(0)];
    assert!(run(&mut accounts, &deposit_data(deposit_amount, BUMP)).is_ok());
    assert_eq!(accounts[1].lamports, RENT_EXEMPT + deposit_amount);
    assert_eq!(accounts[0].lamports, owner_pre_deposit - deposit_amount);
    let payer = accounts.remove(0);
    let vault = accounts.remove(0);

    // Nudge the vault one unit below the floor-plus-amount, so that a
    // withdrawal of the full deposit would land under the retention floor.
    let mut accounts = vec![payer, vault, filler(2), filler(0)];
    assert!(run(&mut accounts, &withdraw_data(1, BUMP)).is_ok());

    // Withdraw 50_000_000: the remainder would be below the floor.
    let owner_before = accounts[0].lamports;
    let vault_before = accounts[1].lamports;
    assert_eq!(
        run(&mut accounts, &withdraw_data(deposit_amount, BUMP)),
        Err(VaultError::InsufficientFunds)
    );
    assert_eq!(accounts[0].lamports, owner_before);
    assert_eq!(accounts[1].lamports, vault_before);
    let payer = accounts.remove(0);
    let vault = accounts.remove(0);

    // Close: vault at zero, owner holding its whole former balance.
    let vault_balance = vault.lamports;
    let owner_pre_close = payer.lamports;
    let mut accounts = vec![payer, vault, filler(0)];
    assert!(run(&mut accounts, &close_data(BUMP)).is_ok());
    assert_eq!(accounts[1].lamports, 0);
    assert_eq!(accounts[0].lamports, owner_pre_close + vault_balance);
}

/// The balance ledger's checked arithmetic, value by value.
#[test]
fn balance_ledger_arithmetic() {
    let mut from: u64 = 100;
    let mut to: u64 = 7;
    assert!(pinocchio_vault::ledger::transfer_in(&mut from, &mut to, 40).is_ok());
    assert_eq!((from, to), (60, 47));
    assert_eq!(
        pinocchio_vault::ledger::transfer_in(&mut from, &mut to, 0),
        Err(VaultError::InvalidAmount)
    );
    let mut full: u64 = u64::MAX;
    assert_eq!(
        pinocchio_vault::ledger::transfer_in(&mut from, &mut full, 1),
        Err(VaultError::Overflow)
    );
    assert_eq!(
        pinocchio_vault::ledger::transfer_in(&mut from, &mut to, 61),
        Err(VaultError::InsufficientFunds)
    );
    assert_eq!((from, to), (60, 47));

    let mut vault: u64 = 100;
    let mut user: u64 = 0;
    assert_eq!(
        pinocchio_vault::ledger::transfer_out(&mut vault, &mut user, 70, 50),
        Err(VaultError::InsufficientFunds)
    );
    assert!(pinocchio_vault::ledger::transfer_out(&mut vault, &mut user, 50, 50).is_ok());
    assert_eq!((vault, user), (50, 50));

    assert!(pinocchio_vault::ledger::drain_all(&mut vault, &mut user).is_ok());
    assert_eq!((vault, user), (0, 100));
}

/// The authorization guards and the record's life cycle, taken one call at
/// a time.
#[test]
fn guards_and_record() {
    let caller = signer(OWNER, 0);
    assert!(pinocchio_vault::guards::require_signer(&caller).is_ok());
    let mut unsigned = caller.clone();
    unsigned.is_signer = false;
    assert_eq!(
        pinocchio_vault::guards::require_signer(&unsigned),
        Err(VaultError::MissingSignature)
    );

    let record = VaultState { owner: OWNER };
    assert!(pinocchio_vault::guards::require_owner(&record, &caller).is_ok());
    assert_eq!(
        pinocchio_vault::guards::require_owner(&record, &signer(INTRUDER, 0)),
        Err(VaultError::NotOwner)
    );

    let pda = pinocchio_vault::pda::derive(&OWNER, BUMP, &PROGRAM);
    assert!(VaultState::validate_pda(BUMP, &pda, &OWNER, &PROGRAM).is_ok());
    assert_eq!(
        VaultState::validate_pda(BUMP, &pda, &INTRUDER, &PROGRAM),
        Err(VaultError::AddressMismatch)
    );

    let mut vault = filler(9);
    assert!(VaultState::initialize(&mut vault, &OWNER).is_ok());
    assert_eq!(vault.data, OWNER.to_vec());
    assert_eq!(
        VaultState::initialize(&mut vault, &OWNER),
        Err(VaultError::AlreadyInitialized)
    );
}
