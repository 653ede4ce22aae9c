use anchor_lang::prelude::Pubkey;
use hotwings_locking::{
    begin_lock, initialize_lock, ledger_address, vault_address, Account, Address, InitializeLock,
    LockError,
};

fn filled(byte: u8) -> Address {
    Address::new([byte; 32])
}

fn program() -> Address {
    filled(7)
}

fn context_at(user: Address, vault: Address, ledger: Address) -> InitializeLock {
    InitializeLock {
        program_id: program(),
        token_mint: filled(1),
        project_wallet: filled(2),
        project_wallet_authority: filled(3),
        locked_account: Account::absent(vault),
        program_pda: filled(4),
        investor_locked_tokens: Account::absent(ledger),
        user,
    }
}

#[test]
fn vault_address_is_the_program_address_of_its_seeds() {
    let user = filled(9);
    let (expected, _bump) = Pubkey::find_program_address(
        &[b"locked-tokens", &user.bytes],
        &Pubkey::new_from_array(program().bytes),
    );
    let found = vault_address(&user, &program()).expect("an address is derived");
    assert_eq!(found.bytes, expected.to_bytes());
    assert_ne!(found, user);
    assert_ne!(found, program());
}

#[test]
fn ledger_address_is_the_program_address_of_its_seeds() {
    let user = filled(9);
    let (expected, _bump) = Pubkey::find_program_address(
        &[b"locked-balance", &user.bytes],
        &Pubkey::new_from_array(program().bytes),
    );
    let found = ledger_address(&user, &program()).expect("an address is derived");
    assert_eq!(found.bytes, expected.to_bytes());
    assert_ne!(found, user);
    assert_ne!(found, program());
}

#[test]
fn deriving_twice_gives_the_same_address() {
    let user = filled(21);
    assert_eq!(vault_address(&user, &program()), vault_address(&user, &program()));
    assert_eq!(ledger_address(&user, &program()), ledger_address(&user, &program()));
}

#[test]
fn vault_and_ledger_of_one_depositor_differ() {
    let user = filled(21);
    assert_ne!(vault_address(&user, &program()), ledger_address(&user, &program()));
}

#[test]
fn two_depositors_get_different_addresses() {
    let first = filled(21);
    let second = filled(22);
    assert_ne!(vault_address(&first, &program()), vault_address(&second, &program()));
    assert_ne!(ledger_address(&first, &program()), ledger_address(&second, &program()));
}

#[test]
fn addresses_depend_on_the_program() {
    let user = filled(21);
    assert_ne!(vault_address(&user, &filled(7)), vault_address(&user, &filled(8)));
}

#[test]
fn addresses_compare_by_their_bytes() {
    let mut bytes = [5u8; 32];
    assert_eq!(Address::new(bytes), filled(5));
    bytes[31] = 6;
    assert_ne!(Address::new(bytes), filled(5));
    bytes[31] = 5;
    bytes[0] = 4;
    assert_ne!(Address::new(bytes), filled(5));
}

#[test]
fn check_addresses_accepts_only_the_derived_pair() {
    let ctx = context_at(filled(9), filled(10), filled(11));
    assert_eq!(ctx.check_addresses(Some(filled(10)), Some(filled(11))), Ok(()));
    assert_eq!(
        ctx.check_addresses(Some(filled(11)), Some(filled(10))),
        Err(LockError::AddressDerivationMismatch)
    );
    assert_eq!(
        ctx.check_addresses(Some(filled(10)), Some(filled(12))),
        Err(LockError::AddressDerivationMismatch)
    );
    assert_eq!(
        ctx.check_addresses(Some(filled(12)), Some(filled(11))),
        Err(LockError::AddressDerivationMismatch)
    );
    assert_eq!(
        ctx.check_addresses(None, Some(filled(11))),
        Err(LockError::AddressDerivationMismatch)
    );
    assert_eq!(
        ctx.check_addresses(Some(filled(10)), None),
        Err(LockError::AddressDerivationMismatch)
    );
    assert_eq!(ctx.check_addresses(None, None), Err(LockError::AddressDerivationMismatch));
}

#[test]
fn lock_at_the_derived_addresses_is_accepted() {
    let user = filled(9);
    let vault = vault_address(&user, &program()).unwrap();
    let ledger = ledger_address(&user, &program()).unwrap();
    let mut ctx = context_at(user, vault, ledger);
    assert!(begin_lock(&ctx, 10).is_ok());
    assert_eq!(initialize_lock(&mut ctx, 10, Ok(())), Ok(()));
    assert_eq!(ctx.locked_amount(), 10);
}

#[test]
fn vault_at_a_wrong_address_is_rejected() {
    let user = filled(9);
    let ledger = ledger_address(&user, &program()).unwrap();
    let mut ctx = context_at(user, filled(50), ledger);
    let before = ctx;
    assert_eq!(begin_lock(&ctx, 10), Err(LockError::AddressDerivationMismatch));
    assert_eq!(
        initialize_lock(&mut ctx, 10, Ok(())),
        Err(LockError::AddressDerivationMismatch)
    );
    assert_eq!(ctx, before);
}

#[test]
fn ledger_at_a_wrong_address_is_rejected() {
    let user = filled(9);
    let vault = vault_address(&user, &program()).unwrap();
    let mut ctx = context_at(user, vault, filled(51));
    let before = ctx;
    assert_eq!(begin_lock(&ctx, 10), Err(LockError::AddressDerivationMismatch));
    assert_eq!(
        initialize_lock(&mut ctx, 10, Ok(())),
        Err(LockError::AddressDerivationMismatch)
    );
    assert_eq!(ctx, before);
}

#[test]
fn another_depositors_accounts_are_rejected() {
    let owner = filled(9);
    let other = filled(10);
    let vault = vault_address(&owner, &program()).unwrap();
    let ledger = ledger_address(&owner, &program()).unwrap();
    let mut ctx = context_at(other, vault, ledger);
    assert_eq!(begin_lock(&ctx, 10), Err(LockError::AddressDerivationMismatch));
    assert_eq!(
        initialize_lock(&mut ctx, 10, Ok(())),
        Err(LockError::AddressDerivationMismatch)
    );
    assert_eq!(ctx.locked_amount(), 0);
    assert!(ctx.investor_locked_tokens.data.is_none());
}

#[test]
fn vault_and_ledger_swapped_are_rejected() {
    let user = filled(9);
    let vault = vault_address(&user, &program()).unwrap();
    let ledger = ledger_address(&user, &program()).unwrap();
    let mut ctx = context_at(user, ledger, vault);
    assert_eq!(
        initialize_lock(&mut ctx, 10, Ok(())),
        Err(LockError::AddressDerivationMismatch)
    );
}

#[test]
fn accounts_under_another_program_are_rejected() {
    let user = filled(9);
    let vault = vault_address(&user, &filled(8)).unwrap();
    let ledger = ledger_address(&user, &filled(8)).unwrap();
    let mut ctx = context_at(user, vault, ledger);
    assert_eq!(
        initialize_lock(&mut ctx, 10, Ok(())),
        Err(LockError::AddressDerivationMismatch)
    );
}

#[test]
fn a_wrong_address_is_reported_before_a_refused_transfer() {
    let user = filled(9);
    let ledger = ledger_address(&user, &program()).unwrap();
    let mut ctx = context_at(user, filled(50), ledger);
    assert_eq!(
        initialize_lock(&mut ctx, 10, Err(hotwings_locking::TransferError::Unauthorized)),
        Err(LockError::AddressDerivationMismatch)
    );
}

#[test]
fn seed_tags_are_the_documented_ones() {
    assert_eq!(hotwings_locking::VAULT_SEED, "locked-tokens");
    assert_eq!(hotwings_locking::LEDGER_SEED, "locked-balance");
}
