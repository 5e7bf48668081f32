//! Token custody vault: a fixed-layout codec, the vault record, address
//! derivation, and the two request processors (lock, empty) with their
//! dispatch.
//!
//! The processors decide; they change nothing and call nobody. A request
//! is handed in as plain values: its accounts, its payload, what the token
//! program says of its token accounts, and the ledger's clock and rent. What
//! comes back is either the error of the first check that failed or the
//! steps to take, in their order. Two of the steps are the library's own:
//! `Vault::initialize` writes a record, `Vault::close` wipes one.

use crate::accounts::vault::record_address;
use crate::accounts::Account;
use crate::errors::refusal_error;
use crate::errors::refused;
use crate::errors::Check;
use crate::errors::DiamondHandsError;
use crate::errors::Refusal;
use crate::errors::Values;
use crate::errors::VaultError;
use crate::instructions::decision;
use crate::instructions::empty_vault::empty_vault_refusal;
use crate::instructions::empty_vault::process_empty_vault;
use crate::instructions::empty_vault::spec_empty_refusal;
use crate::instructions::empty_vault::spec_process_empty_vault;
use crate::instructions::lock_vault::lock_address;
use crate::instructions::lock_vault::lock_vault_refusal;
use crate::instructions::lock_vault::process_lock_vault;
use crate::instructions::lock_vault::spec_lock_refusal;
use crate::instructions::lock_vault::spec_process_lock_vault;
use crate::instructions::Step;
use crate::instructions::TokenAccounts;
use crate::instructions::VaultProgramInstructions;
use crate::pubkey::ProgramIds;
use crate::pubkey::Pubkey;
use vstd::prelude::*;

pub mod accounts;
pub mod errors;
pub mod instructions;
pub mod pod;
pub mod pubkey;
pub mod sdk;
pub mod utils;

verus! {

/// The operation that a request asks for: its first byte is the tag, 1 for
/// lock and 2 for empty. A request without a first byte, or with any other,
/// asks for none.
pub open spec fn spec_operation(instruction_data: Seq<u8>) -> Result<
    VaultProgramInstructions,
    VaultError,
> {
    if instruction_data.len() > 0 && instruction_data[0] == 1 {
        Ok(VaultProgramInstructions::LockVault)
    } else if instruction_data.len() > 0 && instruction_data[0] == 2 {
        Ok(VaultProgramInstructions::EmptyVault)
    } else {
        Err(VaultError::Custom(DiamondHandsError::InvalidInstruction))
    }
}

/// Reads the operation tag of a request.
pub fn operation(instruction_data: &[u8]) -> (r: Result<VaultProgramInstructions, VaultError>)
    ensures
        r == spec_operation(instruction_data@),
{
    if instruction_data.len() == 0 {
        return Err(VaultError::Custom(DiamondHandsError::InvalidInstruction));
    }
    match VaultProgramInstructions::try_from(&instruction_data[0]) {
        Ok(discriminator) => Ok(discriminator),
        Err(e) => Err(VaultError::from(e)),
    }
}

/// Decides on a request: reads its operation tag and hands it to the
/// processor of that operation. A request with an unknown tag is refused
/// before anything else of it is looked at. `rent_lamports` and
/// `current_slot` are what the ledger says of rent and clock, or `None`
/// where it could not be read; either is missed only by the operation that
/// needs it, and only once every check before it has passed.
pub fn process_instruction(
    ids: &ProgramIds,
    accounts: &[Account],
    instruction_data: &[u8],
    tokens: &TokenAccounts,
    rent_lamports: Option<u64>,
    current_slot: Option<u64>,
) -> (r: Result<Vec<Step>, VaultError>)
    ensures
        decision(r) == (match spec_operation(instruction_data@) {
            Ok(VaultProgramInstructions::LockVault) => spec_process_lock_vault(
                *ids,
                accounts@,
                instruction_data@,
                *tokens,
                rent_lamports,
                lock_address(*ids, accounts@, instruction_data@),
            ),
            Ok(VaultProgramInstructions::EmptyVault) => spec_process_empty_vault(
                *ids,
                accounts@,
                instruction_data@,
                *tokens,
                current_slot,
                record_address(ids.program, accounts@[0].data@),
            ),
            Err(e) => Err(e),
        }),
{
    match operation(instruction_data)? {
        VaultProgramInstructions::LockVault => {
            process_lock_vault(ids, accounts, instruction_data, tokens, rent_lamports)
        },
        VaultProgramInstructions::EmptyVault => {
            process_empty_vault(ids, accounts, instruction_data, tokens, current_slot)
        },
    }
}

/// Why `process_instruction` refuses a request: the first check that fails
/// and the values that it compared; `None` where the request succeeds. The
/// error of the refusal is the error of its check.
pub fn refusal(
    ids: &ProgramIds,
    accounts: &[Account],
    instruction_data: &[u8],
    tokens: &TokenAccounts,
    rent_lamports: Option<u64>,
    current_slot: Option<u64>,
) -> (r: Option<Refusal>)
    ensures
        r == (match spec_operation(instruction_data@) {
            Ok(VaultProgramInstructions::LockVault) => spec_lock_refusal(
                *ids,
                accounts@,
                instruction_data@,
                *tokens,
                rent_lamports,
                lock_address(*ids, accounts@, instruction_data@),
            ),
            Ok(VaultProgramInstructions::EmptyVault) => spec_empty_refusal(
                *ids,
                accounts@,
                instruction_data@,
                *tokens,
                current_slot,
                record_address(ids.program, accounts@[0].data@),
            ),
            Err(e) => refused(
                Check::Operation,
                if instruction_data@.len() > 0 {
                    Values::Number(instruction_data@[0] as u64)
                } else {
                    Values::Nothing
                },
            ),
        }),
{
    match operation(instruction_data) {
        Ok(VaultProgramInstructions::LockVault) => {
            lock_vault_refusal(ids, accounts, instruction_data, tokens, rent_lamports)
        },
        Ok(VaultProgramInstructions::EmptyVault) => {
            empty_vault_refusal(ids, accounts, instruction_data, tokens, current_slot)
        },
        Err(_) => {
            let values = if instruction_data.len() > 0 {
                Values::Number(instruction_data[0] as u64)
            } else {
                Values::Nothing
            };
            Some(Refusal { check: Check::Operation, values })
        },
    }
}

/// A request is refused with the error of the check that `refusal` names,
/// and succeeds exactly where `refusal` names none.
pub proof fn lemma_refusal_is_the_error(
    ids: ProgramIds,
    accounts: Seq<Account>,
    data: Seq<u8>,
    tokens: TokenAccounts,
    rent_lamports: Option<u64>,
    current_slot: Option<u64>,
    lock_address: Option<Pubkey>,
    record_address: Option<Pubkey>,
)
    ensures
        refusal_error(
            spec_lock_refusal(ids, accounts, data, tokens, rent_lamports, lock_address),
        ) == (match spec_process_lock_vault(
            ids,
            accounts,
            data,
            tokens,
            rent_lamports,
            lock_address,
        ) {
            Ok(_) => None::<VaultError>,
            Err(e) => Some(e),
        }),
        refusal_error(
            spec_empty_refusal(ids, accounts, data, tokens, current_slot, record_address),
        ) == (match spec_process_empty_vault(
            ids,
            accounts,
            data,
            tokens,
            current_slot,
            record_address,
        ) {
            Ok(_) => None::<VaultError>,
            Err(e) => Some(e),
        }),
{
}

} // verus!
