//! What a client needs to address a vault and to write the requests: the
//! search for a vault's address, the decoding of a record, and the two
//! requests with their accounts in order.

use crate::accounts::vault::derived_vault_address;
use crate::accounts::vault::spec_create_program_address;
use crate::accounts::vault::Vault;
use crate::errors::VaultError;
use crate::instructions::empty_vault::EmptyVaultIxData;
use crate::instructions::lock_vault::lock_payload;
use crate::instructions::lock_vault::LockVaultIxData;
use crate::pod::Pod;
use crate::pubkey::bumped_address;
use crate::pubkey::find_address;
use crate::pubkey::found_address;
use crate::pubkey::ASSOCIATED_TOKEN_PROGRAM_ID;
use crate::pubkey::ProgramIds;
use crate::pubkey::Pubkey;
use crate::utils::load_account;
use crate::utils::spec_load_account;
use vstd::prelude::*;

verus! {

/// One account of a request, as the request names it.
#[derive(Clone, Copy, Debug, PartialEq, Eq)]
pub struct AccountMeta {
    pub pubkey: Pubkey,
    pub is_signer: bool,
    pub is_writable: bool,
}

/// A request to a program.
#[derive(Debug)]
pub struct Instruction {
    /// The program that the request goes to.
    pub program_id: Pubkey,
    /// The accounts of the request, in the order that the program reads.
    pub accounts: Vec<AccountMeta>,
    /// The payload, operation tag first.
    pub data: Vec<u8>,
}

/// The accounts of a lock or empty request, in their fixed order: the
/// vault, the admin, who signs, the mint, the admin's token account, the
/// vault's token account, the token program and the system program. The
/// vault, the admin and the two token accounts are writable.
pub open spec fn vault_accounts(
    ids: ProgramIds,
    vault: Pubkey,
    admin: Pubkey,
    mint: Pubkey,
    admin_token: Pubkey,
    vault_token: Pubkey,
) -> Seq<AccountMeta> {
    seq![
        AccountMeta { pubkey: vault, is_signer: false, is_writable: true },
        AccountMeta { pubkey: admin, is_signer: true, is_writable: true },
        AccountMeta { pubkey: mint, is_signer: false, is_writable: false },
        AccountMeta { pubkey: admin_token, is_signer: false, is_writable: true },
        AccountMeta { pubkey: vault_token, is_signer: false, is_writable: true },
        AccountMeta { pubkey: ids.token_program, is_signer: false, is_writable: false },
        AccountMeta { pubkey: ids.system_program, is_signer: false, is_writable: false },
    ]
}

/// Lists the accounts of a request in their fixed order.
fn account_metas(
    ids: &ProgramIds,
    vault: &Pubkey,
    admin: &Pubkey,
    mint: &Pubkey,
    admin_token: &Pubkey,
    vault_token: &Pubkey,
) -> (r: Vec<AccountMeta>)
    ensures
        r@ == vault_accounts(*ids, *vault, *admin, *mint, *admin_token, *vault_token),
{
    let mut accounts: Vec<AccountMeta> = Vec::new();
    accounts.push(AccountMeta { pubkey: *vault, is_signer: false, is_writable: true });
    accounts.push(AccountMeta { pubkey: *admin, is_signer: true, is_writable: true });
    accounts.push(AccountMeta { pubkey: *mint, is_signer: false, is_writable: false });
    accounts.push(AccountMeta { pubkey: *admin_token, is_signer: false, is_writable: true });
    accounts.push(AccountMeta { pubkey: *vault_token, is_signer: false, is_writable: true });
    accounts.push(AccountMeta { pubkey: ids.token_program, is_signer: false, is_writable: false });
    accounts.push(AccountMeta { pubkey: ids.system_program, is_signer: false, is_writable: false });
    assert(accounts@ =~= vault_accounts(*ids, *vault, *admin, *mint, *admin_token, *vault_token));
    accounts
}

/// What `vault_address` finds: the address of the vault of `admin` for
/// `mint` and its salt, the largest from 255 down to 1 with which the seeds
/// of the vault derive an address.
pub open spec fn spec_vault_address(program_id: Pubkey, admin: Pubkey, mint: Pubkey) -> Option<
    (Pubkey, u8),
> {
    found_address(Vault::SEED@, admin@, mint@, program_id@)
}

/// The address of the token account of `wallet` for `mint`: what the seeds
/// wallet, token program and mint derive under the associated token account
/// program, with the largest bump that derives.
pub open spec fn spec_associated_token_address(
    wallet: Pubkey,
    token_program: Pubkey,
    mint: Pubkey,
) -> Option<Pubkey> {
    match found_address(wallet@, token_program@, mint@, ASSOCIATED_TOKEN_PROGRAM_ID@) {
        Some(found) => Some(found.0),
        None => None,
    }
}

/// Finds the address of the vault of `admin` for `mint` and the salt that
/// derives it: the largest salt from 255 down to 1 for which the seeds
/// derive an address. The address found is the one that
/// `Vault::create_program_address` gives for that salt. `None` where no
/// salt derives an address.
pub fn vault_address(program_id: &Pubkey, admin: &Pubkey, mint: &Pubkey) -> (r: Option<
    (Pubkey, u8),
>)
    ensures
        r == spec_vault_address(*program_id, *admin, *mint),
        r matches Some((address, bump)) ==> {
            &&& 1 <= bump
            &&& spec_create_program_address(*program_id, *admin, *mint, bump) == Ok::<
                Pubkey,
                VaultError,
            >(address)
            &&& forall|b: u8|
                bump < b ==> #[trigger] derived_vault_address(*program_id, *admin, *mint, b)
                    is None
        },
        r is None ==> forall|b: u8|
            1 <= b ==> #[trigger] derived_vault_address(*program_id, *admin, *mint, b) is None,
{
    let label = Vault::SEED;
    let r = find_address(label.as_slice(), admin.as_slice(), mint.as_slice(), program_id);
    proof {
        // The search speaks of three seeds and a bump; the vault's address
        // is what the label, the admin, the mint and that bump derive.
        assert forall|b: u8| #[trigger]
            derived_vault_address(*program_id, *admin, *mint, b) == bumped_address(
                label@,
                admin@,
                mint@,
                b,
                program_id@,
            ) by {}
        if let Some((address, bump)) = r {
            <[u8; 32]>::lemma_parse_layout(address);
        }
    }
    r
}

/// Finds the address of the token account of `wallet` for `mint` under the
/// token program `token_program`; `None` where the seeds derive none.
pub fn associated_token_address(wallet: &Pubkey, token_program: &Pubkey, mint: &Pubkey) -> (r:
    Option<Pubkey>)
    ensures
        r == spec_associated_token_address(*wallet, *token_program, *mint),
{
    let program = ASSOCIATED_TOKEN_PROGRAM_ID;
    match find_address(wallet.as_slice(), token_program.as_slice(), mint.as_slice(), &program) {
        Some((address, _)) => Some(address),
        None => None,
    }
}

/// Reads a written vault record from the data of an account; `None` where
/// the data has another size or holds no written record.
pub fn deserialize_vault(data: &[u8]) -> (r: Option<Vault>)
    ensures
        r == (match spec_load_account::<Vault>(data@) {
            Ok(record) => Some(record),
            Err(_) => None::<Vault>,
        }),
{
    match load_account::<Vault>(data) {
        Ok(record) => Some(record),
        Err(_) => None,
    }
}

/// The addresses that a request for the vault of `admin` for `mint` names:
/// the vault with its salt, the admin's token account and the vault's token
/// account; `None` where one of them cannot be derived.
pub open spec fn spec_request_addresses(ids: ProgramIds, admin: Pubkey, mint: Pubkey) -> Option<
    (Pubkey, u8, Pubkey, Pubkey),
> {
    match spec_vault_address(ids.program, admin, mint) {
        Some(vault) => match (
            spec_associated_token_address(admin, ids.token_program, mint),
            spec_associated_token_address(vault.0, ids.token_program, mint),
        ) {
            (Some(admin_token), Some(vault_token)) => Some(
                (vault.0, vault.1, admin_token, vault_token),
            ),
            _ => None,
        },
        None => None,
    }
}

/// Derives the addresses that a request for the vault of `admin` for `mint`
/// names.
pub fn request_addresses(ids: &ProgramIds, admin: &Pubkey, mint: &Pubkey) -> (r: Option<
    (Pubkey, u8, Pubkey, Pubkey),
>)
    ensures
        r == spec_request_addresses(*ids, *admin, *mint),
{
    let (vault, vault_bump) = match vault_address(&ids.program, admin, mint) {
        Some(found) => found,
        None => {
            return None;
        },
    };
    let admin_token = associated_token_address(admin, &ids.token_program, mint);
    let vault_token = associated_token_address(&vault, &ids.token_program, mint);
    match (admin_token, vault_token) {
        (Some(admin_token), Some(vault_token)) => Some(
            (vault, vault_bump, admin_token, vault_token),
        ),
        _ => None,
    }
}

/// The request with which `admin` locks tokens of `mint` for
/// `slots_to_lock` slots: `tokens_to_lock` of them, or all that the admin
/// holds. The vault, its salt and the two token accounts are derived from
/// admin and mint; `None` where one of them cannot be derived.
pub fn lock_vault_ix(
    ids: &ProgramIds,
    admin: &Pubkey,
    mint: &Pubkey,
    slots_to_lock: u64,
    tokens_to_lock: Option<u64>,
) -> (r: Option<Instruction>)
    ensures
        r is Some <==> spec_request_addresses(*ids, *admin, *mint) is Some,
        r matches Some(ix) ==> {
            let found = spec_request_addresses(*ids, *admin, *mint)->0;
            &&& ix.program_id == ids.program
            &&& ix.accounts@ == vault_accounts(*ids, found.0, *admin, *mint, found.2, found.3)
            &&& ix.data@ == lock_payload(found.1, slots_to_lock, tokens_to_lock)
        },
{
    match request_addresses(ids, admin, mint) {
        Some((vault, vault_bump, admin_token, vault_token)) => Some(
            lock_vault_ix_with_addresses(
                ids,
                &vault,
                vault_bump,
                admin,
                mint,
                &admin_token,
                &vault_token,
                slots_to_lock,
                tokens_to_lock,
            ),
        ),
        None => None,
    }
}

/// The request with which `admin` empties the vault for `mint`. The vault
/// and the two token accounts are derived from admin and mint; `None` where
/// one of them cannot be derived.
pub fn empty_vault_ix(ids: &ProgramIds, admin: &Pubkey, mint: &Pubkey) -> (r: Option<Instruction>)
    ensures
        r is Some <==> spec_request_addresses(*ids, *admin, *mint) is Some,
        r matches Some(ix) ==> {
            let found = spec_request_addresses(*ids, *admin, *mint)->0;
            &&& ix.program_id == ids.program
            &&& ix.accounts@ == vault_accounts(*ids, found.0, *admin, *mint, found.2, found.3)
            &&& ix.data@ == seq![2u8]
        },
{
    match request_addresses(ids, admin, mint) {
        Some((vault, _, admin_token, vault_token)) => Some(
            empty_vault_ix_with_addresses(ids, &vault, admin, mint, &admin_token, &vault_token),
        ),
        None => None,
    }
}

/// The request that locks tokens of `mint` for `slots_to_lock` slots in the
/// vault at `vault`, whose address was derived with `vault_bump`:
/// `tokens_to_lock` of them, or all that the admin holds.
pub fn lock_vault_ix_with_addresses(
    ids: &ProgramIds,
    vault: &Pubkey,
    vault_bump: u8,
    admin: &Pubkey,
    mint: &Pubkey,
    admin_token: &Pubkey,
    vault_token: &Pubkey,
    slots_to_lock: u64,
    tokens_to_lock: Option<u64>,
) -> (r: Instruction)
    ensures
        r.program_id == ids.program,
        r.accounts@ == vault_accounts(*ids, *vault, *admin, *mint, *admin_token, *vault_token),
        r.data@ == lock_payload(vault_bump, slots_to_lock, tokens_to_lock),
{
    let ix_data = LockVaultIxData::new(vault_bump, slots_to_lock, tokens_to_lock);
    Instruction {
        program_id: ids.program,
        accounts: account_metas(ids, vault, admin, mint, admin_token, vault_token),
        data: ix_data.to_bytes(),
    }
}

/// The request that empties the vault at `vault` and gives the tokens back
/// to the admin.
pub fn empty_vault_ix_with_addresses(
    ids: &ProgramIds,
    vault: &Pubkey,
    admin: &Pubkey,
    mint: &Pubkey,
    admin_token: &Pubkey,
    vault_token: &Pubkey,
) -> (r: Instruction)
    ensures
        r.program_id == ids.program,
        r.accounts@ == vault_accounts(*ids, *vault, *admin, *mint, *admin_token, *vault_token),
        r.data@ == seq![2u8],
{
    let ix_data = EmptyVaultIxData::new();
    Instruction {
        program_id: ids.program,
        accounts: account_metas(ids, vault, admin, mint, admin_token, vault_token),
        data: ix_data.to_bytes(),
    }
}

} // verus!
