use diamond_hands::accounts::Account;
use diamond_hands::errors::{Check, DiamondHandsError, Refusal, Values, VaultError};
use diamond_hands::instructions::lock_vault::{
    lock_vault_refusal, lock_vault_refusal_with_address, process_lock_vault,
    process_lock_vault_with_address, LockVaultIxData,
};
use diamond_hands::instructions::{
    CreateAccount, InitializeVault, Mint, Step, TokenAccount, TokenAccounts, Transfer,
    VaultSigner,
};
use diamond_hands::pubkey::{ProgramIds, Pubkey, ID, SYSTEM_PROGRAM_ID, TOKEN_PROGRAM_ID};

const ADMIN: Pubkey = [1; 32];
const MINT: Pubkey = [2; 32];
const VAULT_TOKEN: Pubkey = [3; 32];
const ADMIN_TOKEN: Pubkey = [4; 32];
// What admin, mint and salt 255 derive under the program's own address.
const VAULT: Pubkey = [
    223, 145, 255, 237, 114, 72, 171, 72, 98, 247, 128, 171, 84, 34, 172, 192, 62, 46, 103, 171,
    230, 54, 66, 30, 162, 192, 133, 126, 94, 195, 112, 162,
];
const RENT: u64 = 1_920_960;

fn ids() -> ProgramIds {
    ProgramIds::canonical(ID)
}

fn account(key: Pubkey, owner: Pubkey, is_signer: bool, is_writable: bool, data: Vec<u8>) -> Account {
    Account { key, owner, is_signer, is_writable, lamports: 10_000_000, data }
}

/// vault, admin, mint, admin_token, vault_token, token_program, system_program
fn accounts() -> Vec<Account> {
    vec![
        account(VAULT, SYSTEM_PROGRAM_ID, false, true, vec![]),
        account(ADMIN, SYSTEM_PROGRAM_ID, true, true, vec![]),
        account(MINT, TOKEN_PROGRAM_ID, false, false, vec![0; 82]),
        account(ADMIN_TOKEN, TOKEN_PROGRAM_ID, false, true, vec![0; 165]),
        account(VAULT_TOKEN, TOKEN_PROGRAM_ID, false, true, vec![0; 165]),
        account(TOKEN_PROGRAM_ID, [5; 32], false, false, vec![]),
        account(SYSTEM_PROGRAM_ID, [5; 32], false, false, vec![]),
    ]
}

fn tokens(balance: u64) -> TokenAccounts {
    TokenAccounts {
        mint: Some(Mint { decimals: 6 }),
        admin_token: Some(TokenAccount { mint: MINT, owner: ADMIN, amount: balance }),
        vault_token: Some(TokenAccount { mint: MINT, owner: VAULT, amount: 0 }),
    }
}

fn payload(tokens_to_lock: Option<u64>) -> Vec<u8> {
    LockVaultIxData::new(255, 10, tokens_to_lock).to_bytes()
}

fn lock(accounts: &[Account], data: &[u8], tokens: &TokenAccounts) -> Result<Vec<Step>, VaultError> {
    process_lock_vault(&ids(), accounts, data, tokens, Some(RENT))
}

/// Create the vault's account, write the record, move the tokens.
fn plan(amount: u64, tokens_to_lock: Option<u64>) -> Vec<Step> {
    vec![
        Step::CreateAccount(
            CreateAccount { from: ADMIN, to: VAULT, lamports: RENT, space: 148, owner: ID },
            VaultSigner { admin: ADMIN, mint: MINT, bump: 255 },
        ),
        Step::Initialize(InitializeVault {
            vault: VAULT,
            admin: ADMIN,
            mint: MINT,
            ix_data: LockVaultIxData::new(255, 10, tokens_to_lock),
            vault_token: VAULT_TOKEN,
            mint_decimals: 6,
        }),
        Step::Transfer(
            Transfer { from: ADMIN_TOKEN, to: VAULT_TOKEN, authority: ADMIN, amount },
            None,
        ),
    ]
}

fn amount_moved(steps: &[Step]) -> u64 {
    match steps.last() {
        Some(Step::Transfer(request, _)) => request.amount,
        _ => panic!("the last step of a lock moves the tokens"),
    }
}

#[test]
fn lock_everything() {
    assert_eq!(lock(&accounts(), &payload(None), &tokens(1000)), Ok(plan(1000, None)));
    assert_eq!(lock(&accounts(), &payload(None), &tokens(0)), Ok(plan(0, None)));
    assert_eq!(lock(&accounts(), &payload(None), &tokens(u64::MAX)), Ok(plan(u64::MAX, None)));
}

#[test]
fn lock_a_named_amount() {
    assert_eq!(lock(&accounts(), &payload(Some(400)), &tokens(1000)), Ok(plan(400, Some(400))));
    assert_eq!(lock(&accounts(), &payload(Some(1000)), &tokens(1000)), Ok(plan(1000, Some(1000))));
    assert_eq!(lock(&accounts(), &payload(Some(0)), &tokens(1000)), Ok(plan(0, Some(0))));
}

#[test]
fn lock_refuses_more_than_the_balance() {
    assert_eq!(
        lock(&accounts(), &payload(Some(1500)), &tokens(1000)),
        Err(VaultError::AmountExceedsBalance)
    );
    assert_eq!(
        lock(&accounts(), &payload(Some(1001)), &tokens(1000)),
        Err(VaultError::AmountExceedsBalance)
    );
    assert_eq!(
        lock(&accounts(), &payload(Some(1)), &tokens(0)),
        Err(VaultError::AmountExceedsBalance)
    );
}

#[test]
fn lock_refuses_a_wrong_number_of_accounts() {
    let all = accounts();
    assert_eq!(lock(&all[..6], &payload(None), &tokens(1000)), Err(VaultError::NotEnoughAccountKeys));
    assert_eq!(lock(&[], &payload(None), &tokens(1000)), Err(VaultError::NotEnoughAccountKeys));
    let mut eight = accounts();
    eight.push(account([9; 32], SYSTEM_PROGRAM_ID, false, false, vec![]));
    assert_eq!(lock(&eight, &payload(None), &tokens(1000)), Err(VaultError::NotEnoughAccountKeys));
    // The number of accounts is looked at before the payload.
    assert_eq!(lock(&all[..6], &[], &tokens(1000)), Err(VaultError::NotEnoughAccountKeys));
}

#[test]
fn lock_refuses_a_payload_of_the_wrong_size() {
    let wrong = Err(VaultError::Custom(DiamondHandsError::InvalidInstructionData));
    assert_eq!(lock(&accounts(), &[], &tokens(1000)), wrong);
    assert_eq!(lock(&accounts(), &[1], &tokens(1000)), wrong);
    assert_eq!(lock(&accounts(), &payload(None)[..18], &tokens(1000)), wrong);
    let mut long = payload(None);
    long.push(0);
    assert_eq!(lock(&accounts(), &long, &tokens(1000)), wrong);
}

#[test]
fn lock_refuses_a_corrupt_amount_tag() {
    let mut data = payload(Some(400));
    data[10] = 2;
    assert_eq!(lock(&accounts(), &data, &tokens(1000)), Err(VaultError::CorruptData));
    data[10] = 0xFF;
    assert_eq!(lock(&accounts(), &data, &tokens(1000)), Err(VaultError::CorruptData));
    // With tag 0 the bytes that follow are no amount: everything is locked.
    data[10] = 0;
    assert_eq!(lock(&accounts(), &data, &tokens(1000)).map(|s| amount_moved(&s)), Ok(1000));
}

#[test]
fn lock_refuses_other_providers() {
    let mut a = accounts();
    a[5].key = SYSTEM_PROGRAM_ID;
    assert_eq!(lock(&a, &payload(None), &tokens(1000)), Err(VaultError::IncorrectProgramId));
    let mut a = accounts();
    a[6].key = TOKEN_PROGRAM_ID;
    assert_eq!(lock(&a, &payload(None), &tokens(1000)), Err(VaultError::IncorrectProgramId));
    // Other identities can be handed in.
    let other = ProgramIds { program: ID, token_program: [7; 32], system_program: [8; 32] };
    assert_eq!(
        process_lock_vault(&other, &accounts(), &payload(None), &tokens(1000), Some(RENT)),
        Err(VaultError::IncorrectProgramId)
    );
}

#[test]
fn lock_refuses_an_address_that_is_taken() {
    // Owned by the program already.
    let mut a = accounts();
    a[0].owner = ID;
    a[0].data = vec![0; 148];
    assert_eq!(lock(&a, &payload(None), &tokens(1000)), Err(VaultError::OwnerMismatch));
    // Holding data.
    let mut a = accounts();
    a[0].data = vec![0];
    assert_eq!(lock(&a, &payload(None), &tokens(1000)), Err(VaultError::AlreadyInitialized));
}

#[test]
fn lock_asks_no_more_than_signature_and_emptiness() {
    // An admin that signed and an address at which nothing exists are
    // enough, whether or not the request names them as writable.
    let mut a = accounts();
    a[0].is_writable = false;
    assert_eq!(lock(&a, &payload(None), &tokens(1000)), Ok(plan(1000, None)));
    let mut a = accounts();
    a[1].is_writable = false;
    assert_eq!(lock(&a, &payload(None), &tokens(1000)), Ok(plan(1000, None)));
}

#[test]
fn lock_refuses_an_unknown_rent_last() {
    assert_eq!(
        process_lock_vault(&ids(), &accounts(), &payload(None), &tokens(1000), None),
        Err(VaultError::UnsupportedSysvar)
    );
    // Every other refusal comes first.
    assert_eq!(
        process_lock_vault(&ids(), &accounts(), &payload(Some(1500)), &tokens(1000), None),
        Err(VaultError::AmountExceedsBalance)
    );
    assert_eq!(
        process_lock_vault(&ids(), &accounts()[..6], &payload(None), &tokens(1000), None),
        Err(VaultError::NotEnoughAccountKeys)
    );
}

#[test]
fn lock_refuses_an_admin_who_did_not_sign() {
    let mut a = accounts();
    a[1].is_signer = false;
    assert_eq!(lock(&a, &payload(None), &tokens(1000)), Err(VaultError::MissingRequiredSignature));
}

#[test]
fn lock_refuses_an_address_that_is_not_derived() {
    let mut a = accounts();
    a[0].key = [9; 32];
    assert_eq!(lock(&a, &payload(None), &tokens(1000)), Err(VaultError::AddressMismatch));
    // Another salt than the one of the address.
    let data = LockVaultIxData::new(252, 10, None).to_bytes();
    assert_eq!(lock(&accounts(), &data, &tokens(1000)), Err(VaultError::AddressMismatch));
    // A salt that derives no address.
    let data = LockVaultIxData::new(254, 10, None).to_bytes();
    assert_eq!(lock(&accounts(), &data, &tokens(1000)), Err(VaultError::InvalidSeeds));
    // Another admin or mint than those of the address.
    let mut a = accounts();
    a[2].key = [9; 32];
    assert!(matches!(
        lock(&a, &payload(None), &tokens(1000)),
        Err(VaultError::AddressMismatch) | Err(VaultError::InvalidSeeds)
    ));
}

#[test]
fn lock_refuses_token_accounts_that_cannot_be_read() {
    let mut t = tokens(1000);
    t.mint = None;
    assert_eq!(lock(&accounts(), &payload(None), &t), Err(VaultError::InvalidAccountData));
    let mut t = tokens(1000);
    t.vault_token = None;
    assert_eq!(lock(&accounts(), &payload(None), &t), Err(VaultError::InvalidAccountData));
    let mut t = tokens(1000);
    t.admin_token = None;
    assert_eq!(lock(&accounts(), &payload(None), &t), Err(VaultError::InvalidAccountData));
}

#[test]
fn lock_refuses_token_accounts_of_others() {
    let mut t = tokens(1000);
    t.vault_token = Some(TokenAccount { mint: MINT, owner: ADMIN, amount: 0 });
    assert_eq!(lock(&accounts(), &payload(None), &t), Err(VaultError::HolderMismatch));
    let mut t = tokens(1000);
    t.vault_token = Some(TokenAccount { mint: [9; 32], owner: VAULT, amount: 0 });
    assert_eq!(lock(&accounts(), &payload(None), &t), Err(VaultError::MintMismatch));
    let mut t = tokens(1000);
    t.admin_token = Some(TokenAccount { mint: MINT, owner: VAULT, amount: 1000 });
    assert_eq!(lock(&accounts(), &payload(None), &t), Err(VaultError::HolderMismatch));
    let mut t = tokens(1000);
    t.admin_token = Some(TokenAccount { mint: [9; 32], owner: ADMIN, amount: 1000 });
    assert_eq!(lock(&accounts(), &payload(None), &t), Err(VaultError::MintMismatch));
    // The owner is looked at before the mint, the vault's account before the admin's.
    let mut t = tokens(1000);
    t.vault_token = Some(TokenAccount { mint: [9; 32], owner: ADMIN, amount: 0 });
    t.admin_token = None;
    assert_eq!(lock(&accounts(), &payload(None), &t), Err(VaultError::HolderMismatch));
}

#[test]
fn lock_reports_the_first_violation() {
    // Everything is wrong at once; the checks answer in their order.
    let mut a = accounts();
    a[5].key = [9; 32];
    a[6].key = [9; 32];
    a[0].owner = ID;
    a[1].is_signer = false;
    let t = TokenAccounts { mint: None, admin_token: None, vault_token: None };
    let data = payload(Some(5000));
    assert_eq!(lock(&a, &data, &t), Err(VaultError::IncorrectProgramId));
    a[5].key = TOKEN_PROGRAM_ID;
    assert_eq!(lock(&a, &data, &t), Err(VaultError::IncorrectProgramId));
    a[6].key = SYSTEM_PROGRAM_ID;
    assert_eq!(lock(&a, &data, &t), Err(VaultError::OwnerMismatch));
    a[0].owner = SYSTEM_PROGRAM_ID;
    assert_eq!(lock(&a, &data, &t), Err(VaultError::MissingRequiredSignature));
    a[1].is_signer = true;
    assert_eq!(lock(&a, &data, &t), Err(VaultError::InvalidAccountData));
    assert_eq!(lock(&a, &data, &tokens(1000)), Err(VaultError::AmountExceedsBalance));
    assert_eq!(lock(&a, &data, &tokens(5000)), Ok(plan(5000, Some(5000))));
}

#[test]
fn lock_with_a_given_address() {
    let ids = ids();
    let run = |address| {
        process_lock_vault_with_address(&ids, &accounts(), &payload(Some(400)), &tokens(1000), Some(RENT), address)
    };
    assert_eq!(run(Some(VAULT)), Ok(plan(400, Some(400))));
    assert_eq!(run(Some([0; 32])), Err(VaultError::AddressMismatch));
    assert_eq!(run(None), Err(VaultError::InvalidSeeds));
}

#[test]
fn lock_refusal_names_the_check_and_its_values() {
    let ids = ids();
    let refusal = |a: &[Account], data: &[u8], t: &TokenAccounts| {
        lock_vault_refusal(&ids, a, data, t, Some(RENT))
    };
    let expect = |check, values| Some(Refusal { check, values });
    assert_eq!(refusal(&accounts(), &payload(Some(400)), &tokens(1000)), None);
    assert_eq!(
        refusal(&accounts()[..5], &payload(None), &tokens(1000)),
        expect(Check::AccountCount, Values::Numbers(5, 7))
    );
    assert_eq!(
        refusal(&accounts(), &[1, 2, 3], &tokens(1000)),
        expect(Check::PayloadSize, Values::Numbers(3, 19))
    );
    let mut data = payload(Some(400));
    data[10] = 9;
    assert_eq!(
        refusal(&accounts(), &data, &tokens(1000)),
        expect(Check::AmountTag, Values::Number(9))
    );
    let mut a = accounts();
    a[5].key = [9; 32];
    assert_eq!(
        refusal(&a, &payload(None), &tokens(1000)),
        expect(Check::TokenProgram, Values::Keys([9; 32], TOKEN_PROGRAM_ID))
    );
    let mut a = accounts();
    a[6].key = [9; 32];
    assert_eq!(
        refusal(&a, &payload(None), &tokens(1000)),
        expect(Check::SystemProgram, Values::Keys([9; 32], SYSTEM_PROGRAM_ID))
    );
    let mut a = accounts();
    a[0].owner = ID;
    assert_eq!(
        refusal(&a, &payload(None), &tokens(1000)),
        expect(Check::VaultOwner, Values::Keys(ID, SYSTEM_PROGRAM_ID))
    );
    let mut a = accounts();
    a[0].data = vec![0; 148];
    assert_eq!(
        refusal(&a, &payload(None), &tokens(1000)),
        expect(Check::VaultEmpty, Values::Numbers(148, 0))
    );
    let mut a = accounts();
    a[1].is_signer = false;
    assert_eq!(
        refusal(&a, &payload(None), &tokens(1000)),
        expect(Check::AdminSignature, Values::Key(ADMIN))
    );
    assert_eq!(
        refusal(&accounts(), &LockVaultIxData::new(254, 10, None).to_bytes(), &tokens(1000)),
        expect(Check::VaultDerivation, Values::Number(254))
    );
    let mut a = accounts();
    a[0].key = [9; 32];
    assert_eq!(
        refusal(&a, &payload(None), &tokens(1000)),
        expect(Check::VaultAddress, Values::Keys([9; 32], VAULT))
    );
    let mut t = tokens(1000);
    t.mint = None;
    assert_eq!(
        refusal(&accounts(), &payload(None), &t),
        expect(Check::MintAccount, Values::Key(MINT))
    );
    let mut t = tokens(1000);
    t.vault_token = None;
    assert_eq!(
        refusal(&accounts(), &payload(None), &t),
        expect(Check::VaultTokenAccount, Values::Key(VAULT_TOKEN))
    );
    let mut t = tokens(1000);
    t.vault_token = Some(TokenAccount { mint: MINT, owner: ADMIN, amount: 0 });
    assert_eq!(
        refusal(&accounts(), &payload(None), &t),
        expect(Check::VaultTokenOwner, Values::Keys(ADMIN, VAULT))
    );
    let mut t = tokens(1000);
    t.vault_token = Some(TokenAccount { mint: [9; 32], owner: VAULT, amount: 0 });
    assert_eq!(
        refusal(&accounts(), &payload(None), &t),
        expect(Check::VaultTokenMint, Values::Keys([9; 32], MINT))
    );
    let mut t = tokens(1000);
    t.admin_token = None;
    assert_eq!(
        refusal(&accounts(), &payload(None), &t),
        expect(Check::AdminTokenAccount, Values::Key(ADMIN_TOKEN))
    );
    let mut t = tokens(1000);
    t.admin_token = Some(TokenAccount { mint: MINT, owner: VAULT, amount: 1000 });
    assert_eq!(
        refusal(&accounts(), &payload(None), &t),
        expect(Check::AdminTokenOwner, Values::Keys(VAULT, ADMIN))
    );
    let mut t = tokens(1000);
    t.admin_token = Some(TokenAccount { mint: [9; 32], owner: ADMIN, amount: 1000 });
    assert_eq!(
        refusal(&accounts(), &payload(None), &t),
        expect(Check::AdminTokenMint, Values::Keys([9; 32], MINT))
    );
    assert_eq!(
        refusal(&accounts(), &payload(Some(1500)), &tokens(1000)),
        expect(Check::Amount, Values::Numbers(1500, 1000))
    );
    assert_eq!(
        lock_vault_refusal(&ids, &accounts(), &payload(None), &tokens(1000), None),
        expect(Check::Rent, Values::Nothing)
    );
    assert_eq!(
        lock_vault_refusal_with_address(&ids, &accounts(), &payload(None), &tokens(1000), Some(RENT), Some([7; 32])),
        expect(Check::VaultAddress, Values::Keys(VAULT, [7; 32]))
    );
}

#[test]
fn every_refusal_is_reported_with_the_error_of_its_check() {
    let ids = ids();
    let mut a = accounts();
    a[0].owner = ID;
    let cases: Vec<(Vec<Account>, Vec<u8>, TokenAccounts, Option<u64>)> = vec![
        (accounts(), payload(Some(400)), tokens(1000), Some(RENT)),
        (accounts(), payload(Some(1500)), tokens(1000), Some(RENT)),
        (accounts(), payload(None), tokens(1000), None),
        (a, payload(None), tokens(1000), Some(RENT)),
        (accounts()[..2].to_vec(), payload(None), tokens(1000), Some(RENT)),
        (accounts(), vec![1], tokens(1000), Some(RENT)),
    ];
    for (accounts, data, tokens, rent) in cases {
        let decided = process_lock_vault(&ids, &accounts, &data, &tokens, rent);
        let refused = lock_vault_refusal(&ids, &accounts, &data, &tokens, rent);
        assert_eq!(decided.err(), refused.map(|r| r.check.error()));
    }
}
