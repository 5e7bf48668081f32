use diamond_hands::accounts::vault::Vault;
use diamond_hands::accounts::Account;
use diamond_hands::errors::{Check, DiamondHandsError, Refusal, Values, VaultError};
use diamond_hands::instructions::lock_vault::LockVaultIxData;
use diamond_hands::pubkey::{Pubkey, ID};
use diamond_hands::utils::{
    load_account, load_signer, load_system_account, load_system_program, load_token_program,
    to_bytes,
};

const ADMIN: Pubkey = [1; 32];
const MINT: Pubkey = [2; 32];
const VAULT_TOKEN: Pubkey = [3; 32];
const SYSTEM: Pubkey = [0; 32];
// What admin, mint and salt 255 derive under the program's own address.
const VAULT: Pubkey = [
    223, 145, 255, 237, 114, 72, 171, 72, 98, 247, 128, 171, 84, 34, 172, 192, 62, 46, 103, 171,
    230, 54, 66, 30, 162, 192, 133, 126, 94, 195, 112, 162,
];

fn account(key: Pubkey, owner: Pubkey, is_signer: bool, is_writable: bool, data: Vec<u8>) -> Account {
    Account { key, owner, is_signer, is_writable, lamports: 1_000_000, data }
}

fn record_bytes(bump: u8, start_slot: u64, slots_locked: u64) -> Vec<u8> {
    let mut data = vec![1u8, 1, bump];
    data.extend_from_slice(&ADMIN);
    data.extend_from_slice(&MINT);
    data.push(6);
    data.extend_from_slice(&VAULT_TOKEN);
    data.extend_from_slice(&start_slot.to_le_bytes());
    data.extend_from_slice(&slots_locked.to_le_bytes());
    data.extend_from_slice(&[0u8; 32]);
    data
}

fn vault_account() -> Account {
    account(VAULT, ID, false, true, record_bytes(255, 50, 10))
}

fn admin_account() -> Account {
    account(ADMIN, SYSTEM, true, true, vec![])
}

fn mint_account() -> Account {
    account(MINT, [6; 32], false, false, vec![0; 82])
}

fn token_account() -> Account {
    account(VAULT_TOKEN, [6; 32], false, true, vec![0; 165])
}

fn check_all(vault: &Account, admin: &Account, mint: &Account, token: &Account) -> Result<(), VaultError> {
    Vault::check(&ID, vault, true, Some(admin), Some(mint), Some(token))
}

#[test]
fn seed_label_is_vault() {
    assert_eq!(&Vault::SEED[..], b"VAULT");
}

#[test]
fn address_derivation_known_value() {
    assert_eq!(Vault::create_program_address(&ID, &ADMIN, &MINT, 255), Ok(VAULT));
    // The result is not one of the inputs.
    assert_ne!(VAULT, ADMIN);
    assert_ne!(VAULT, MINT);
    assert_ne!(VAULT, ID);
}

#[test]
fn address_derivation_is_repeatable() {
    for bump in [255u8, 254, 252, 200, 1, 0] {
        let first = Vault::create_program_address(&ID, &ADMIN, &MINT, bump);
        let second = Vault::create_program_address(&ID, &ADMIN, &MINT, bump);
        assert_eq!(first, second);
    }
}

#[test]
fn address_derivation_depends_on_every_input() {
    let base = Vault::create_program_address(&ID, &ADMIN, &MINT, 255).unwrap();
    let other_program = Vault::create_program_address(&[7; 32], &ADMIN, &MINT, 255);
    let swapped = Vault::create_program_address(&ID, &MINT, &ADMIN, 255);
    let other_salt = Vault::create_program_address(&ID, &ADMIN, &MINT, 252);
    assert!(other_program.is_ok());
    assert!(other_salt.is_ok());
    assert_ne!(other_program, Ok(base));
    assert_ne!(swapped, Ok(base));
    assert_ne!(other_salt, Ok(base));
}

#[test]
fn address_derivation_refuses_seeds_on_the_curve() {
    // With salt 254 the seeds hash to a point that could have a private key.
    assert_eq!(
        Vault::create_program_address(&ID, &ADMIN, &MINT, 254),
        Err(VaultError::InvalidSeeds)
    );
}

#[test]
fn seeds_are_label_admin_mint_salt() {
    let seeds = Vault::vault_seed_with_bump(&ADMIN, &MINT, 9);
    assert_eq!(seeds, vec![b"VAULT".to_vec(), ADMIN.to_vec(), MINT.to_vec(), vec![9]]);
}

#[test]
fn check_seeds_accepts_exactly_the_derived_list() {
    let seeds = Vault::vault_seed_with_bump(&ADMIN, &MINT, 255);
    assert_eq!(Vault::check_seeds(&ADMIN, &MINT, 255, &seeds), Ok(()));
    let refused = Err(VaultError::SeedMismatch);
    // Another salt, admin or mint.
    assert_eq!(Vault::check_seeds(&ADMIN, &MINT, 254, &seeds), refused);
    assert_eq!(Vault::check_seeds(&MINT, &MINT, 255, &seeds), refused);
    assert_eq!(Vault::check_seeds(&ADMIN, &ADMIN, 255, &seeds), refused);
    // Too few and too many seeds.
    assert_eq!(Vault::check_seeds(&ADMIN, &MINT, 255, &seeds[..3].to_vec()), refused);
    assert_eq!(Vault::check_seeds(&ADMIN, &MINT, 255, &vec![]), refused);
    let mut five = seeds.clone();
    five.push(vec![0]);
    assert_eq!(Vault::check_seeds(&ADMIN, &MINT, 255, &five), refused);
    // One byte changed, in each position.
    for i in 0..4 {
        let mut changed = seeds.clone();
        changed[i][0] ^= 1;
        assert_eq!(Vault::check_seeds(&ADMIN, &MINT, 255, &changed), refused);
    }
    // A seed that is only the start of the right one, and one that goes on.
    let mut short = seeds.clone();
    short[1].truncate(31);
    assert_eq!(Vault::check_seeds(&ADMIN, &MINT, 255, &short), refused);
    let mut empty = seeds.clone();
    empty[3].clear();
    assert_eq!(Vault::check_seeds(&ADMIN, &MINT, 255, &empty), refused);
    let mut long = seeds.clone();
    long[0].push(b'S');
    assert_eq!(Vault::check_seeds(&ADMIN, &MINT, 255, &long), refused);
    // The seeds in another order.
    let mut swapped = seeds.clone();
    swapped.swap(1, 2);
    assert_eq!(Vault::check_seeds(&ADMIN, &MINT, 255, &swapped), refused);
}

#[test]
fn check_accepts_a_consistent_vault() {
    assert_eq!(
        check_all(&vault_account(), &admin_account(), &mint_account(), &token_account()),
        Ok(())
    );
    assert_eq!(Vault::check(&ID, &vault_account(), true, None, None, None), Ok(()));
    let mut read_only = vault_account();
    read_only.is_writable = false;
    assert_eq!(Vault::check(&ID, &read_only, false, None, None, None), Ok(()));
}

#[test]
fn check_refuses_a_foreign_owner() {
    let mut vault = vault_account();
    vault.owner = SYSTEM;
    assert_eq!(
        check_all(&vault, &admin_account(), &mint_account(), &token_account()),
        Err(VaultError::OwnerMismatch)
    );
    // The owner is looked at before anything else.
    vault.is_writable = false;
    vault.data = vec![];
    assert_eq!(
        check_all(&vault, &admin_account(), &mint_account(), &token_account()),
        Err(VaultError::OwnerMismatch)
    );
}

#[test]
fn check_refuses_a_read_only_vault() {
    let mut vault = vault_account();
    vault.is_writable = false;
    assert_eq!(
        check_all(&vault, &admin_account(), &mint_account(), &token_account()),
        Err(VaultError::NotWritable)
    );
}

#[test]
fn check_refuses_data_that_is_no_written_record() {
    let mut vault = vault_account();
    vault.data.push(0);
    assert_eq!(
        check_all(&vault, &admin_account(), &mint_account(), &token_account()),
        Err(VaultError::SizeMismatch)
    );
    vault.data = vec![0; 148];
    assert_eq!(
        check_all(&vault, &admin_account(), &mint_account(), &token_account()),
        Err(VaultError::Uninitialized)
    );
}

#[test]
fn check_refuses_an_address_that_the_record_does_not_derive() {
    let mut vault = vault_account();
    vault.key = [9; 32];
    assert_eq!(
        check_all(&vault, &admin_account(), &mint_account(), &token_account()),
        Err(VaultError::AddressMismatch)
    );
    // A record whose salt derives no address at all.
    let mut vault = vault_account();
    vault.data = record_bytes(254, 50, 10);
    assert_eq!(
        check_all(&vault, &admin_account(), &mint_account(), &token_account()),
        Err(VaultError::InvalidSeeds)
    );
    // A record with another salt than the one of the address.
    vault.data = record_bytes(252, 50, 10);
    assert_eq!(
        check_all(&vault, &admin_account(), &mint_account(), &token_account()),
        Err(VaultError::AddressMismatch)
    );
}

#[test]
fn check_refuses_an_admin_who_did_not_sign() {
    let mut admin = admin_account();
    admin.is_signer = false;
    assert_eq!(
        check_all(&vault_account(), &admin, &mint_account(), &token_account()),
        Err(VaultError::MissingRequiredSignature)
    );
    // The signature is all that is asked of the admin beside its key.
    let mut admin = admin_account();
    admin.is_writable = false;
    assert_eq!(
        check_all(&vault_account(), &admin, &mint_account(), &token_account()),
        Ok(())
    );
}

#[test]
fn check_refuses_accounts_that_are_not_the_records() {
    let mut admin = admin_account();
    admin.key = [8; 32];
    assert_eq!(
        check_all(&vault_account(), &admin, &mint_account(), &token_account()),
        Err(VaultError::AdminMismatch)
    );
    let mut mint = mint_account();
    mint.key = [8; 32];
    assert_eq!(
        check_all(&vault_account(), &admin_account(), &mint, &token_account()),
        Err(VaultError::MintMismatch)
    );
    let mut token = token_account();
    token.key = [8; 32];
    assert_eq!(
        check_all(&vault_account(), &admin_account(), &mint_account(), &token),
        Err(VaultError::VaultTokenMismatch)
    );
    // The admin is looked at before the mint, the mint before the token account.
    assert_eq!(check_all(&vault_account(), &admin, &mint, &token), Err(VaultError::AdminMismatch));
    assert_eq!(
        check_all(&vault_account(), &admin_account(), &mint, &token),
        Err(VaultError::MintMismatch)
    );
    // What is not handed in is not compared.
    assert_eq!(Vault::check(&ID, &vault_account(), true, None, Some(&mint_account()), None), Ok(()));
}

#[test]
fn check_with_a_given_address() {
    let vault = vault_account();
    assert_eq!(
        Vault::check_with_address(&ID, &vault, true, None, None, None, Some(VAULT)),
        Ok(())
    );
    assert_eq!(
        Vault::check_with_address(&ID, &vault, true, None, None, None, Some([0; 32])),
        Err(VaultError::AddressMismatch)
    );
    assert_eq!(
        Vault::check_with_address(&ID, &vault, true, None, None, None, None),
        Err(VaultError::InvalidSeeds)
    );
}

#[test]
fn check_refusal_names_the_check_and_its_values() {
    let refusal = |vault: &Account, admin: &Account, mint: &Account, token: &Account, address| {
        Vault::check_refusal(&ID, vault, true, Some(admin), Some(mint), Some(token), address)
    };
    let (vault, admin, mint, token) =
        (vault_account(), admin_account(), mint_account(), token_account());
    assert_eq!(refusal(&vault, &admin, &mint, &token, Some(VAULT)), None);

    let mut foreign = vault_account();
    foreign.owner = SYSTEM;
    assert_eq!(
        refusal(&foreign, &admin, &mint, &token, Some(VAULT)),
        Some(Refusal { check: Check::VaultOwner, values: Values::Keys(SYSTEM, ID) })
    );
    let mut read_only = vault_account();
    read_only.is_writable = false;
    assert_eq!(
        refusal(&read_only, &admin, &mint, &token, Some(VAULT)),
        Some(Refusal { check: Check::VaultWritable, values: Values::Key(VAULT) })
    );
    let mut short = vault_account();
    short.data.truncate(100);
    assert_eq!(
        refusal(&short, &admin, &mint, &token, Some(VAULT)),
        Some(Refusal { check: Check::RecordSize, values: Values::Numbers(100, 148) })
    );
    let mut blank = vault_account();
    blank.data = vec![0; 148];
    assert_eq!(
        refusal(&blank, &admin, &mint, &token, Some(VAULT)),
        Some(Refusal { check: Check::RecordWritten, values: Values::Key(VAULT) })
    );
    assert_eq!(
        refusal(&vault, &admin, &mint, &token, None),
        Some(Refusal { check: Check::VaultDerivation, values: Values::Number(255) })
    );
    assert_eq!(
        refusal(&vault, &admin, &mint, &token, Some([9; 32])),
        Some(Refusal { check: Check::VaultAddress, values: Values::Keys(VAULT, [9; 32]) })
    );
    let mut unsigned = admin_account();
    unsigned.is_signer = false;
    assert_eq!(
        refusal(&vault, &unsigned, &mint, &token, Some(VAULT)),
        Some(Refusal { check: Check::AdminSignature, values: Values::Key(ADMIN) })
    );
    let mut other = admin_account();
    other.key = [8; 32];
    assert_eq!(
        refusal(&vault, &other, &mint, &token, Some(VAULT)),
        Some(Refusal { check: Check::RecordAdmin, values: Values::Keys([8; 32], ADMIN) })
    );
    let mut other = mint_account();
    other.key = [8; 32];
    assert_eq!(
        refusal(&vault, &admin, &other, &token, Some(VAULT)),
        Some(Refusal { check: Check::RecordMint, values: Values::Keys([8; 32], MINT) })
    );
    let mut other = token_account();
    other.key = [8; 32];
    assert_eq!(
        refusal(&vault, &admin, &mint, &other, Some(VAULT)),
        Some(Refusal { check: Check::RecordToken, values: Values::Keys([8; 32], VAULT_TOKEN) })
    );
}

#[test]
fn record_address_of_an_account() {
    assert_eq!(Vault::derive_record_address(&ID, &vault_account()), Some(VAULT));
    let mut refused = vault_account();
    refused.data = record_bytes(254, 50, 10);
    assert_eq!(Vault::derive_record_address(&ID, &refused), None);
    let mut short = vault_account();
    short.data.pop();
    assert_eq!(Vault::derive_record_address(&ID, &short), None);
}

#[test]
fn unlock_is_allowed_from_the_last_locked_slot_on() {
    let record = load_account::<Vault>(&record_bytes(255, 50, 10)).unwrap();
    let locked = Err(VaultError::Custom(DiamondHandsError::VaultLocked));
    assert_eq!(record.unlock_allowed(50), locked);
    assert_eq!(record.unlock_allowed(59), locked);
    assert_eq!(record.unlock_allowed(60), Ok(()));
    assert_eq!(record.unlock_allowed(61), Ok(()));
    assert_eq!(record.unlock_allowed(u64::MAX), Ok(()));
    assert_eq!(record.remaining_slots(50), 10);
    assert_eq!(record.remaining_slots(59), 1);
    assert_eq!(record.remaining_slots(60), 0);
    assert_eq!(record.remaining_slots(1_000), 0);
}

#[test]
fn unlock_never_wraps_below_the_start_slot() {
    let record = load_account::<Vault>(&record_bytes(255, 50, 10)).unwrap();
    let locked = Err(VaultError::Custom(DiamondHandsError::VaultLocked));
    assert_eq!(record.unlock_allowed(0), locked);
    assert_eq!(record.unlock_allowed(49), locked);
    assert_eq!(record.remaining_slots(0), 10);
    // A lock of no slots is over at once, even before its own start.
    let open = load_account::<Vault>(&record_bytes(255, 50, 0)).unwrap();
    assert_eq!(open.unlock_allowed(0), Ok(()));
    assert_eq!(open.unlock_allowed(50), Ok(()));
    // The longest lock there is.
    let forever = load_account::<Vault>(&record_bytes(255, 1, u64::MAX)).unwrap();
    assert_eq!(forever.unlock_allowed(u64::MAX), locked);
    assert_eq!(forever.remaining_slots(u64::MAX), 1);
    let whole = load_account::<Vault>(&record_bytes(255, 0, u64::MAX)).unwrap();
    assert_eq!(whole.unlock_allowed(u64::MAX), Ok(()));
}

#[test]
fn check_unlock_okay_reads_the_account() {
    let vault = vault_account();
    assert_eq!(
        Vault::check_unlock_okay(&vault, 59),
        Err(VaultError::Custom(DiamondHandsError::VaultLocked))
    );
    assert_eq!(Vault::check_unlock_okay(&vault, 60), Ok(()));
    let mut short = vault_account();
    short.data.pop();
    assert_eq!(Vault::check_unlock_okay(&short, 60), Err(VaultError::SizeMismatch));
}

#[test]
fn initialize_writes_the_record() {
    let mut vault = account(VAULT, ID, false, true, vec![0; 148]);
    let ix = LockVaultIxData::new(255, 10, Some(400));
    assert_eq!(Vault::initialize(&mut vault, &ADMIN, &MINT, &ix, &VAULT_TOKEN, 6, 50), Ok(()));
    assert_eq!(vault.data, record_bytes(255, 50, 10));
    assert_eq!(vault.key, VAULT);
    assert_eq!(vault.owner, ID);
    assert_eq!(vault.lamports, 1_000_000);
    let record = load_account::<Vault>(&vault.data).unwrap();
    assert!(record.discriminator().is_some());
    assert_eq!(*record.discriminator().unwrap(), 1);
    assert_eq!(record.bump(), 255);
    assert_eq!(*record.admin(), ADMIN);
    assert_eq!(*record.mint(), MINT);
    assert_eq!(*record.vault_token(), VAULT_TOKEN);
    assert_eq!(record.mint_decimals, 6);
    assert_eq!(record.start_slot(), 50);
    assert_eq!(record.slots_locked(), 10);
    assert_eq!(record.reserved, [0; 32]);
    assert_eq!(to_bytes(&record), vault.data);
}

#[test]
fn initialize_refuses_a_written_record() {
    let mut vault = vault_account();
    let before = vault.data.clone();
    let ix = LockVaultIxData::new(1, 99, None);
    assert_eq!(
        Vault::initialize(&mut vault, &MINT, &ADMIN, &ix, &VAULT_TOKEN, 0, 1),
        Err(VaultError::AlreadyInitialized)
    );
    assert_eq!(vault.data, before);
}

#[test]
fn initialize_refuses_data_of_another_size() {
    let ix = LockVaultIxData::new(255, 10, None);
    for len in [0usize, 147, 149] {
        let mut vault = account(VAULT, ID, false, true, vec![0; len]);
        assert_eq!(
            Vault::initialize(&mut vault, &ADMIN, &MINT, &ix, &VAULT_TOKEN, 6, 50),
            Err(VaultError::SizeMismatch)
        );
        assert_eq!(vault.data, vec![0; len]);
    }
}

#[test]
fn initialize_overwrites_what_was_never_a_record() {
    // Storage with an out-of-range tag byte holds no written record.
    let mut vault = account(VAULT, ID, false, true, vec![0xFF; 148]);
    let ix = LockVaultIxData::new(255, 10, None);
    assert_eq!(Vault::initialize(&mut vault, &ADMIN, &MINT, &ix, &VAULT_TOKEN, 6, 50), Ok(()));
    assert_eq!(vault.data, record_bytes(255, 50, 10));
}

#[test]
fn close_wipes_the_vault_and_pays_the_admin() {
    let mut vault = vault_account();
    vault.lamports = 2_000;
    let mut admin = admin_account();
    admin.lamports = 500;
    Vault::close(&mut vault, &mut admin);
    assert_eq!(vault.lamports, 0);
    assert_eq!(vault.data, vec![0; 148]);
    assert_eq!(admin.lamports, 2_500);
    assert_eq!(vault.key, VAULT);
    assert_eq!(admin.key, ADMIN);
    assert!(admin.data.is_empty());
    // What is left is no written record.
    assert_eq!(load_account::<Vault>(&vault.data).err(), Some(VaultError::Uninitialized));
}

#[test]
fn close_stops_at_the_largest_balance() {
    let mut vault = vault_account();
    vault.lamports = 10;
    let mut admin = admin_account();
    admin.lamports = u64::MAX - 3;
    Vault::close(&mut vault, &mut admin);
    assert_eq!(admin.lamports, u64::MAX);
    assert_eq!(vault.lamports, 0);
}

#[test]
fn signer_checks() {
    let mut info = admin_account();
    assert_eq!(load_signer(&info, true), Ok(()));
    info.is_writable = false;
    assert_eq!(load_signer(&info, false), Ok(()));
    assert_eq!(load_signer(&info, true), Err(VaultError::NotWritable));
    info.is_signer = false;
    assert_eq!(load_signer(&info, true), Err(VaultError::MissingRequiredSignature));
    assert_eq!(load_signer(&info, false), Err(VaultError::MissingRequiredSignature));
}

#[test]
fn program_checks() {
    let token_program = account([6; 32], [0; 32], false, false, vec![]);
    assert_eq!(load_token_program(&token_program, &[6; 32]), Ok(()));
    assert_eq!(load_token_program(&token_program, &[7; 32]), Err(VaultError::IncorrectProgramId));
    assert_eq!(load_system_program(&token_program, &[6; 32]), Ok(()));
    assert_eq!(load_system_program(&token_program, &SYSTEM), Err(VaultError::IncorrectProgramId));
}

#[test]
fn system_account_checks() {
    let mut info = account(VAULT, SYSTEM, false, true, vec![]);
    assert_eq!(load_system_account(&info, true, &SYSTEM), Ok(()));
    info.is_writable = false;
    assert_eq!(load_system_account(&info, false, &SYSTEM), Ok(()));
    assert_eq!(load_system_account(&info, true, &SYSTEM), Err(VaultError::NotWritable));
    info.data = vec![0];
    assert_eq!(load_system_account(&info, true, &SYSTEM), Err(VaultError::AlreadyInitialized));
    info.owner = ID;
    assert_eq!(load_system_account(&info, true, &SYSTEM), Err(VaultError::OwnerMismatch));
}
