use diamond_hands::accounts::vault::Vault;
use diamond_hands::errors::VaultError;
use diamond_hands::pubkey::{id, pubkey_eq, ProgramIds, Pubkey, ID, SYSTEM_PROGRAM_ID, TOKEN_PROGRAM_ID};
use diamond_hands::pubkey::{find_address, ASSOCIATED_TOKEN_PROGRAM_ID};
use diamond_hands::sdk::{
    associated_token_address, deserialize_vault, empty_vault_ix, empty_vault_ix_with_addresses,
    lock_vault_ix, lock_vault_ix_with_addresses, request_addresses, vault_address, AccountMeta,
};
use spl_associated_token_account_interface::address::get_associated_token_address;
use std::str::FromStr;

const ADMIN: Pubkey = [1; 32];
const MINT: Pubkey = [2; 32];
const VAULT_TOKEN: Pubkey = [3; 32];
const ADMIN_TOKEN: Pubkey = [4; 32];
const VAULT: Pubkey = [
    223, 145, 255, 237, 114, 72, 171, 72, 98, 247, 128, 171, 84, 34, 172, 192, 62, 46, 103, 171,
    230, 54, 66, 30, 162, 192, 133, 126, 94, 195, 112, 162,
];

fn metas(vault: Pubkey) -> Vec<AccountMeta> {
    vec![
        AccountMeta { pubkey: vault, is_signer: false, is_writable: true },
        AccountMeta { pubkey: ADMIN, is_signer: true, is_writable: true },
        AccountMeta { pubkey: MINT, is_signer: false, is_writable: false },
        AccountMeta { pubkey: ADMIN_TOKEN, is_signer: false, is_writable: true },
        AccountMeta { pubkey: VAULT_TOKEN, is_signer: false, is_writable: true },
        AccountMeta { pubkey: TOKEN_PROGRAM_ID, is_signer: false, is_writable: false },
        AccountMeta { pubkey: SYSTEM_PROGRAM_ID, is_signer: false, is_writable: false },
    ]
}

#[test]
fn program_id_is_the_deployed_address() {
    let expected = solana_pubkey::Pubkey::from_str("CATvuZTNuyeBkoo5Tpeqtxcn51NDLNMExWPZ5vzQxkEg").unwrap();
    assert_eq!(id(), expected.to_bytes());
    assert_eq!(id(), ID);
}

#[test]
fn canonical_providers() {
    let ids = ProgramIds::canonical([9; 32]);
    assert_eq!(ids.program, [9; 32]);
    assert_eq!(ids.token_program, spl_token_interface::id().to_bytes());
    assert_eq!(ids.system_program, solana_system_interface::program::id().to_bytes());
    assert_eq!(ids.token_program, TOKEN_PROGRAM_ID);
    assert_eq!(ids.system_program, SYSTEM_PROGRAM_ID);
    assert_eq!(
        ids.token_program,
        solana_pubkey::Pubkey::from_str("TokenkegQfeZyiNwAJbNbGKPFXCWuBvf9Ss623VQ5DA").unwrap().to_bytes()
    );
    assert_eq!(ids.system_program, [0; 32]);
}

#[test]
fn addresses_compare_by_their_bytes() {
    assert!(pubkey_eq(&ADMIN, &[1; 32]));
    assert!(!pubkey_eq(&ADMIN, &MINT));
    let mut last = ADMIN;
    last[31] = 0;
    assert!(!pubkey_eq(&ADMIN, &last));
    let mut first = ADMIN;
    first[0] = 0;
    assert!(!pubkey_eq(&ADMIN, &first));
}

#[test]
fn vault_address_finds_the_largest_salt() {
    assert_eq!(vault_address(&ID, &ADMIN, &MINT), Some((VAULT, 255)));
    // For this admin the salt 255 derives no address; 254 is the first that does.
    let admin: Pubkey = [2; 32];
    let expected: Pubkey = [
        114, 159, 178, 239, 20, 39, 92, 41, 86, 104, 38, 161, 200, 92, 85, 54, 113, 23, 87, 77,
        13, 138, 0, 19, 238, 138, 90, 85, 213, 1, 239, 23,
    ];
    assert_eq!(vault_address(&ID, &admin, &MINT), Some((expected, 254)));
    assert_eq!(Vault::create_program_address(&ID, &admin, &MINT, 255), Err(VaultError::InvalidSeeds));
}

#[test]
fn vault_address_matches_the_derivation() {
    for seed in 0u8..20 {
        let admin: Pubkey = [seed; 32];
        let mint: Pubkey = [seed.wrapping_mul(7).wrapping_add(1); 32];
        let (address, bump) = vault_address(&ID, &admin, &mint).unwrap();
        assert!(bump >= 1);
        assert_eq!(Vault::create_program_address(&ID, &admin, &mint, bump), Ok(address));
        for higher in (bump as u16 + 1)..=255 {
            assert_eq!(
                Vault::create_program_address(&ID, &admin, &mint, higher as u8),
                Err(VaultError::InvalidSeeds)
            );
        }
        let seeds = Vault::vault_seed_with_bump(&admin, &mint, bump);
        assert_eq!(Vault::check_seeds(&admin, &mint, bump, &seeds), Ok(()));
        // The same search in the outside crate's own types.
        let slices: Vec<&[u8]> = seeds[..3].iter().map(|s| s.as_slice()).collect();
        let (theirs, their_bump) = solana_pubkey::Pubkey::find_program_address(
            &slices,
            &solana_pubkey::Pubkey::new_from_array(ID),
        );
        assert_eq!((theirs.to_bytes(), their_bump), (address, bump));
    }
}

#[test]
fn lock_request() {
    let ids = ProgramIds::canonical(ID);
    let ix = lock_vault_ix_with_addresses(&ids, &VAULT, 255, &ADMIN, &MINT, &ADMIN_TOKEN, &VAULT_TOKEN, 10, Some(400));
    assert_eq!(ix.program_id, ID);
    assert_eq!(ix.accounts, metas(VAULT));
    assert_eq!(ix.data, vec![1, 255, 10, 0, 0, 0, 0, 0, 0, 0, 1, 0x90, 0x01, 0, 0, 0, 0, 0, 0]);
    let all = lock_vault_ix_with_addresses(&ids, &VAULT, 7, &ADMIN, &MINT, &ADMIN_TOKEN, &VAULT_TOKEN, 1, None);
    assert_eq!(all.data, vec![1, 7, 1, 0, 0, 0, 0, 0, 0, 0, 0, 0, 0, 0, 0, 0, 0, 0, 0]);
    assert_eq!(all.accounts.len(), 7);
}

#[test]
fn empty_request() {
    let ids = ProgramIds::canonical(ID);
    let ix = empty_vault_ix_with_addresses(&ids, &VAULT, &ADMIN, &MINT, &ADMIN_TOKEN, &VAULT_TOKEN);
    assert_eq!(ix.program_id, ID);
    assert_eq!(ix.accounts, metas(VAULT));
    assert_eq!(ix.data, vec![2]);
}

#[test]
fn deserialize_vault_reads_written_records_only() {
    assert!(deserialize_vault(&[]).is_none());
    assert!(deserialize_vault(&[0; 148]).is_none());
    assert!(deserialize_vault(&[1; 147]).is_none());
    let mut data = vec![0u8; 148];
    data[0] = 1;
    data[1] = 1;
    data[2] = 200;
    data[100] = 5;
    let record = deserialize_vault(&data).unwrap();
    assert_eq!(record.bump(), 200);
    assert_eq!(record.start_slot(), 5);
    assert_eq!(record.slots_locked(), 0);
}

#[test]
fn associated_token_program_is_the_deployed_address() {
    assert_eq!(
        ASSOCIATED_TOKEN_PROGRAM_ID,
        spl_associated_token_account_interface::program::id().to_bytes()
    );
}

#[test]
fn associated_token_address_is_the_token_programs_own() {
    for seed in 0u8..16 {
        let wallet: Pubkey = [seed; 32];
        let mint: Pubkey = [seed.wrapping_mul(11).wrapping_add(3); 32];
        let theirs = get_associated_token_address(
            &solana_pubkey::Pubkey::new_from_array(wallet),
            &solana_pubkey::Pubkey::new_from_array(mint),
        );
        assert_eq!(
            associated_token_address(&wallet, &TOKEN_PROGRAM_ID, &mint),
            Some(theirs.to_bytes())
        );
    }
    // The address depends on wallet, mint and token program.
    let base = associated_token_address(&ADMIN, &TOKEN_PROGRAM_ID, &MINT).unwrap();
    assert_ne!(associated_token_address(&MINT, &TOKEN_PROGRAM_ID, &ADMIN), Some(base));
    assert_ne!(associated_token_address(&ADMIN, &[7; 32], &MINT), Some(base));
    assert_ne!(base, ADMIN);
}

#[test]
fn find_address_is_the_search_on_three_seeds() {
    assert_eq!(find_address(b"VAULT", &ADMIN, &MINT, &ID), Some((VAULT, 255)));
    assert_eq!(find_address(b"VAULT", &ADMIN, &MINT, &ID), vault_address(&ID, &ADMIN, &MINT));
    // A seed that is too long derives nothing with any bump.
    assert_eq!(find_address(&[0; 33], &ADMIN, &MINT, &ID), None);
}

#[test]
fn requests_derive_their_addresses() {
    let ids = ProgramIds::canonical(ID);
    let admin_token = associated_token_address(&ADMIN, &TOKEN_PROGRAM_ID, &MINT).unwrap();
    let vault_token = associated_token_address(&VAULT, &TOKEN_PROGRAM_ID, &MINT).unwrap();
    assert_eq!(request_addresses(&ids, &ADMIN, &MINT), Some((VAULT, 255, admin_token, vault_token)));

    let lock = lock_vault_ix(&ids, &ADMIN, &MINT, 10, Some(400)).unwrap();
    let expected = lock_vault_ix_with_addresses(
        &ids, &VAULT, 255, &ADMIN, &MINT, &admin_token, &vault_token, 10, Some(400),
    );
    assert_eq!(lock.program_id, ID);
    assert_eq!(lock.accounts, expected.accounts);
    assert_eq!(lock.data, expected.data);
    assert_eq!(lock.accounts[0].pubkey, VAULT);
    assert_eq!(lock.accounts[3].pubkey, admin_token);
    assert_eq!(lock.accounts[4].pubkey, vault_token);
    assert_eq!(lock.data[1], 255);

    let empty = empty_vault_ix(&ids, &ADMIN, &MINT).unwrap();
    assert_eq!(empty.accounts, expected.accounts);
    assert_eq!(empty.data, vec![2]);

    // For admin 2 the vault has salt 254, and the payload carries it.
    let lock = lock_vault_ix(&ids, &[2; 32], &MINT, 1, None).unwrap();
    assert_eq!(lock.data[1], 254);
}
