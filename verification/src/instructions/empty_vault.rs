//! The empty operation: its payload and its processor.

use crate::accounts::vault::lemma_vault_record_loads;
use crate::accounts::vault::record_address;
use crate::accounts::vault::slots_elapsed;
use crate::accounts::vault::spec_check_refusal;
use crate::accounts::vault::spec_unlock_allowed;
use crate::accounts::vault::vault_record;
use crate::accounts::vault::Vault;
use crate::accounts::Account;
use crate::errors::refused;
use crate::errors::Check;
use crate::errors::DiamondHandsError;
use crate::errors::Refusal;
use crate::errors::Values;
use crate::errors::VaultError;
use crate::instructions::decision;
use crate::instructions::lock_vault::lock_address;
use crate::instructions::lock_vault::spec_process_lock_vault;
use crate::instructions::lock_vault::LockVaultIxData;
use crate::instructions::CloseAccount;
use crate::instructions::CloseVault;
use crate::instructions::Step;
use crate::instructions::TokenAccounts;
use crate::instructions::Transfer;
use crate::instructions::VaultSigner;
use crate::pod::Pod;
use crate::pubkey::pubkey_eq;
use crate::pubkey::ProgramIds;
use crate::pubkey::Pubkey;
use crate::utils::load_account;
use crate::utils::load_ix_data;
use crate::utils::load_signer;
use crate::utils::load_system_program;
use crate::utils::load_token_program;
use crate::utils::spec_load_program;
use crate::utils::spec_load_signer;
use crate::utils::DataLen;
use crate::utils::Discriminator;
use crate::utils::Initialized;
use vstd::prelude::*;

verus! {

/// The payload of an empty request: the tag byte and nothing else.
#[derive(Clone, Copy, Debug, PartialEq)]
pub struct EmptyVaultIxData {
    /// The operation tag.
    pub discriminator: u8,
}

impl DataLen for EmptyVaultIxData {
    const LEN: usize = 1;
}

impl Discriminator for EmptyVaultIxData {
    const DISCRIMINATOR: u8 = 2;
}

impl Default for EmptyVaultIxData {
    fn default() -> (r: Self)
        ensures
            r.discriminator == Self::DISCRIMINATOR,
    {
        EmptyVaultIxData { discriminator: 2 }
    }
}

impl EmptyVaultIxData {
    /// The size of the payload.
    pub proof fn lemma_len()
        ensures
            Self::LEN == 1,
            Self::DISCRIMINATOR == 2,
    {
    }

    pub fn new() -> (r: Self)
        ensures
            r.discriminator == Self::DISCRIMINATOR,
            r.layout() == seq![2u8],
    {
        EmptyVaultIxData { discriminator: 2 }
    }

    /// The bytes of the request.
    pub fn to_bytes(&self) -> (r: Vec<u8>)
        ensures
            r@ == self.layout(),
            r@.len() == Self::LEN,
    {
        crate::utils::to_bytes::<Self>(self)
    }
}

impl Pod for EmptyVaultIxData {
    open spec fn wf(&self) -> bool {
        true
    }

    open spec fn layout(&self) -> Seq<u8> {
        seq![self.discriminator]
    }

    open spec fn parse(bytes: Seq<u8>) -> Self {
        EmptyVaultIxData { discriminator: bytes[0] }
    }

    proof fn lemma_layout_len(v: Self) {
    }

    proof fn lemma_parse_layout(v: Self) {
    }

    proof fn lemma_parse_wf(bytes: Seq<u8>) {
    }

    fn decode(bytes: &[u8]) -> (r: Self) {
        EmptyVaultIxData { discriminator: bytes[0] }
    }

    fn encode(&self, out: &mut Vec<u8>) {
        out.push(self.discriminator);
    }
}

/// The steps of an empty request, in their order: move every token of the
/// vault back to the admin's token account; close the vault's token
/// account, which is empty by then, and hand the balance that paid for it
/// to the admin; wipe the vault's own account and hand its balance to the
/// admin as well. The first two are signed as the vault, with the salt of
/// the record. The tokens go to the admin's token account; both balances
/// go to the admin's own account.
pub open spec fn empty_steps(accounts: Seq<Account>, tokens: TokenAccounts) -> Seq<Step> {
    let vault = accounts[0];
    let admin = accounts[1];
    let mint = accounts[2];
    let admin_token = accounts[3];
    let vault_token = accounts[4];
    let signer = VaultSigner {
        admin: admin.key,
        mint: mint.key,
        bump: Vault::parse(vault.data@).bump,
    };
    seq![
        Step::Transfer(
            Transfer {
                from: vault_token.key,
                to: admin_token.key,
                authority: vault.key,
                amount: tokens.vault_token->0.amount,
            },
            Some(signer),
        ),
        Step::CloseAccount(
            CloseAccount {
                account: vault_token.key,
                destination: admin.key,
                authority: vault.key,
            },
            signer,
        ),
        Step::CloseVault(CloseVault { vault: vault.key, admin: admin.key }),
    ]
}

/// Why an empty request is refused, once the address that the vault's
/// record derives is known; `None` where it passes every check. The
/// accounts are, in this order: vault, admin, mint, the admin's token
/// account, the vault's token account, the token program, the system
/// program. The checks run in the order written here, and the first that
/// fails decides: the request as such, the two token accounts, then the
/// vault as `spec_check_refusal` says, and last of all whether the lock
/// period is over. `current_slot` is the ledger's clock, where it could be
/// read.
pub open spec fn spec_empty_refusal(
    ids: ProgramIds,
    accounts: Seq<Account>,
    data: Seq<u8>,
    tokens: TokenAccounts,
    current_slot: Option<u64>,
    address: Option<Pubkey>,
) -> Option<Refusal> {
    let vault = accounts[0];
    let admin = accounts[1];
    let mint = accounts[2];
    let admin_token = accounts[3];
    let vault_token = accounts[4];
    let token_program = accounts[5];
    let system_program = accounts[6];
    let record = Vault::parse(vault.data@);
    let checked = spec_check_refusal(
        &ids.program,
        &vault,
        true,
        Some(&admin),
        Some(&mint),
        Some(&vault_token),
        address,
    );
    if accounts.len() != 7 {
        refused(Check::AccountCount, Values::Numbers(accounts.len() as u64, 7))
    } else if data.len() != EmptyVaultIxData::LEN {
        refused(Check::PayloadSize, Values::Numbers(data.len() as u64, 1))
    } else if spec_load_program(&token_program, &ids.token_program) is Err {
        refused(Check::TokenProgram, Values::Keys(token_program.key, ids.token_program))
    } else if spec_load_program(&system_program, &ids.system_program) is Err {
        refused(Check::SystemProgram, Values::Keys(system_program.key, ids.system_program))
    } else if spec_load_signer(&admin, false) is Err {
        refused(Check::AdminSignature, Values::Key(admin.key))
    } else if tokens.mint is None {
        refused(Check::MintAccount, Values::Key(mint.key))
    } else if tokens.admin_token is None {
        refused(Check::AdminTokenAccount, Values::Key(admin_token.key))
    } else if tokens.admin_token->0.owner != admin.key {
        refused(Check::AdminTokenOwner, Values::Keys(tokens.admin_token->0.owner, admin.key))
    } else if tokens.admin_token->0.mint != mint.key {
        refused(Check::AdminTokenMint, Values::Keys(tokens.admin_token->0.mint, mint.key))
    } else if tokens.vault_token is None {
        refused(Check::VaultTokenAccount, Values::Key(vault_token.key))
    } else if tokens.vault_token->0.owner != vault.key {
        refused(Check::VaultTokenOwner, Values::Keys(tokens.vault_token->0.owner, vault.key))
    } else if tokens.vault_token->0.mint != mint.key {
        refused(Check::VaultTokenMint, Values::Keys(tokens.vault_token->0.mint, mint.key))
    } else if checked is Some {
        checked
    } else if current_slot is None {
        refused(Check::Clock, Values::Nothing)
    } else if spec_unlock_allowed(record, current_slot->0) is Err {
        refused(
            Check::LockPeriod,
            Values::Numbers(slots_elapsed(record, current_slot->0), record.slots_locked@),
        )
    } else {
        None
    }
}

/// What the empty operation decides on a request, once the address that
/// the vault's record derives is known: the error of the first check that
/// fails, as `spec_empty_refusal` names it, or the steps of emptying.
pub open spec fn spec_process_empty_vault(
    ids: ProgramIds,
    accounts: Seq<Account>,
    data: Seq<u8>,
    tokens: TokenAccounts,
    current_slot: Option<u64>,
    address: Option<Pubkey>,
) -> Result<Seq<Step>, VaultError> {
    match spec_empty_refusal(ids, accounts, data, tokens, current_slot, address) {
        Some(refusal) => Err(refusal.check.spec_error()),
        None => Ok(empty_steps(accounts, tokens)),
    }
}

/// Derives the address of the vault's record of an empty request, where
/// the request has its seven accounts and the vault's data has the size of
/// a record.
pub fn derive_empty_address(ids: &ProgramIds, accounts: &[Account]) -> (r: Option<Pubkey>)
    ensures
        accounts@.len() == 7 && accounts@[0].data@.len() == Vault::LEN ==> r == record_address(
            ids.program,
            accounts@[0].data@,
        ),
{
    if accounts.len() == 7 {
        Vault::derive_record_address(&ids.program, &accounts[0])
    } else {
        None
    }
}

/// Decides on an empty request: checks its accounts, and whether the lock
/// period is over at `current_slot`, and says which steps are to be taken.
/// `tokens` is what the token program says of the request's mint and token
/// accounts; `current_slot` is `None` where the ledger's clock could not be
/// read. Nothing is changed.
pub fn process_empty_vault(
    ids: &ProgramIds,
    accounts: &[Account],
    data: &[u8],
    tokens: &TokenAccounts,
    current_slot: Option<u64>,
) -> (r: Result<Vec<Step>, VaultError>)
    ensures
        decision(r) == spec_process_empty_vault(
            *ids,
            accounts@,
            data@,
            *tokens,
            current_slot,
            record_address(ids.program, accounts@[0].data@),
        ),
{
    let address = derive_empty_address(ids, accounts);
    process_empty_vault_with_address(ids, accounts, data, tokens, current_slot, address)
}

/// Why `process_empty_vault` refuses a request: the first check that fails
/// and the values that it compared; `None` where the request succeeds. For
/// a vault that is still locked the values are the slots that have passed
/// and the slots that were locked.
pub fn empty_vault_refusal(
    ids: &ProgramIds,
    accounts: &[Account],
    data: &[u8],
    tokens: &TokenAccounts,
    current_slot: Option<u64>,
) -> (r: Option<Refusal>)
    ensures
        r == spec_empty_refusal(
            *ids,
            accounts@,
            data@,
            *tokens,
            current_slot,
            record_address(ids.program, accounts@[0].data@),
        ),
{
    let address = derive_empty_address(ids, accounts);
    empty_vault_refusal_with_address(ids, accounts, data, tokens, current_slot, address)
}

/// The decision of `process_empty_vault`, with the address that the vault's
/// record derives handed in.
pub fn process_empty_vault_with_address(
    ids: &ProgramIds,
    accounts: &[Account],
    data: &[u8],
    tokens: &TokenAccounts,
    current_slot: Option<u64>,
    address: Option<Pubkey>,
) -> (r: Result<Vec<Step>, VaultError>)
    ensures
        decision(r) == spec_process_empty_vault(
            *ids,
            accounts@,
            data@,
            *tokens,
            current_slot,
            address,
        ),
{
    if let Some(refusal) = empty_vault_refusal_with_address(
        ids,
        accounts,
        data,
        tokens,
        current_slot,
        address,
    ) {
        return Err(refusal.check.error());
    }
    let vault = &accounts[0];
    let admin = &accounts[1];
    let mint = &accounts[2];
    let admin_token = &accounts[3];
    let vault_token = &accounts[4];
    let tokens_to_empty = match tokens.vault_token {
        Some(vault_token_account) => vault_token_account.amount,
        None => {
            return Err(VaultError::InvalidAccountData);
        },
    };
    let bump: u8 = load_account::<Vault>(vault.data.as_slice())?.bump();
    // The signing seeds are checked once more against admin, mint and salt
    // before anything is signed with them.
    let signing_seeds = Vault::vault_seed_with_bump(&admin.key, &mint.key, bump);
    Vault::check_seeds(&admin.key, &mint.key, bump, &signing_seeds)?;

    let signer = VaultSigner { admin: admin.key, mint: mint.key, bump };
    let mut steps: Vec<Step> = Vec::new();
    steps.push(
        Step::Transfer(
            Transfer {
                from: vault_token.key,
                to: admin_token.key,
                authority: vault.key,
                amount: tokens_to_empty,
            },
            Some(signer),
        ),
    );
    steps.push(
        Step::CloseAccount(
            CloseAccount {
                account: vault_token.key,
                destination: admin.key,
                authority: vault.key,
            },
            signer,
        ),
    );
    steps.push(Step::CloseVault(CloseVault { vault: vault.key, admin: admin.key }));
    proof {
        assert(steps@ =~= empty_steps(accounts@, *tokens));
    }
    Ok(steps)
}

/// The refusal of `empty_vault_refusal`, with the address that the vault's
/// record derives handed in.
pub fn empty_vault_refusal_with_address(
    ids: &ProgramIds,
    accounts: &[Account],
    data: &[u8],
    tokens: &TokenAccounts,
    current_slot: Option<u64>,
    address: Option<Pubkey>,
) -> (r: Option<Refusal>)
    ensures
        r == spec_empty_refusal(*ids, accounts@, data@, *tokens, current_slot, address),
{
    if accounts.len() != 7 {
        return Some(
            Refusal {
                check: Check::AccountCount,
                values: Values::Numbers(accounts.len() as u64, 7),
            },
        );
    }
    let vault = &accounts[0];
    let admin = &accounts[1];
    let mint = &accounts[2];
    let admin_token = &accounts[3];
    let vault_token = &accounts[4];
    let token_program = &accounts[5];
    let system_program = &accounts[6];
    if load_ix_data::<EmptyVaultIxData>(data).is_err() {
        return Some(
            Refusal { check: Check::PayloadSize, values: Values::Numbers(data.len() as u64, 1) },
        );
    }
    if load_token_program(token_program, &ids.token_program).is_err() {
        return Some(
            Refusal {
                check: Check::TokenProgram,
                values: Values::Keys(token_program.key, ids.token_program),
            },
        );
    }
    if load_system_program(system_program, &ids.system_program).is_err() {
        return Some(
            Refusal {
                check: Check::SystemProgram,
                values: Values::Keys(system_program.key, ids.system_program),
            },
        );
    }
    if load_signer(admin, false).is_err() {
        return Some(Refusal { check: Check::AdminSignature, values: Values::Key(admin.key) });
    }
    if tokens.mint.is_none() {
        return Some(Refusal { check: Check::MintAccount, values: Values::Key(mint.key) });
    }
    match tokens.admin_token {
        Some(admin_token_account) => {
            if !pubkey_eq(&admin_token_account.owner, &admin.key) {
                return Some(
                    Refusal {
                        check: Check::AdminTokenOwner,
                        values: Values::Keys(admin_token_account.owner, admin.key),
                    },
                );
            }
            if !pubkey_eq(&admin_token_account.mint, &mint.key) {
                return Some(
                    Refusal {
                        check: Check::AdminTokenMint,
                        values: Values::Keys(admin_token_account.mint, mint.key),
                    },
                );
            }
        },
        None => {
            return Some(
                Refusal { check: Check::AdminTokenAccount, values: Values::Key(admin_token.key) },
            );
        },
    }
    match tokens.vault_token {
        Some(vault_token_account) => {
            if !pubkey_eq(&vault_token_account.owner, &vault.key) {
                return Some(
                    Refusal {
                        check: Check::VaultTokenOwner,
                        values: Values::Keys(vault_token_account.owner, vault.key),
                    },
                );
            }
            if !pubkey_eq(&vault_token_account.mint, &mint.key) {
                return Some(
                    Refusal {
                        check: Check::VaultTokenMint,
                        values: Values::Keys(vault_token_account.mint, mint.key),
                    },
                );
            }
        },
        None => {
            return Some(
                Refusal { check: Check::VaultTokenAccount, values: Values::Key(vault_token.key) },
            );
        },
    }
    let checked = Vault::check_refusal(
        &ids.program,
        vault,
        true,
        Some(admin),
        Some(mint),
        Some(vault_token),
        address,
    );
    if checked.is_some() {
        return checked;
    }
    // Whether the lock period is over is asked last.
    let slot = match current_slot {
        Some(slot) => slot,
        None => {
            return Some(Refusal { check: Check::Clock, values: Values::Nothing });
        },
    };
    let record = match load_account::<Vault>(vault.data.as_slice()) {
        Ok(record) => record,
        Err(_) => {
            return Some(Refusal { check: Check::RecordWritten, values: Values::Key(vault.key) });
        },
    };
    if record.unlock_allowed(slot).is_err() {
        let slots_elapsed: u64 = slot.saturating_sub(record.start_slot());
        return Some(
            Refusal {
                check: Check::LockPeriod,
                values: Values::Numbers(slots_elapsed, record.slots_locked()),
            },
        );
    }
    None
}

/// An empty request passes its checks exactly where everything that is
/// asked of it holds: seven accounts, a payload of one byte, the two
/// canonical providers, an admin who has signed, a mint and two token
/// accounts that can be read and belong to admin and vault, a vault that
/// passes its own checks as a writable account with this admin, mint and
/// token account, a known clock, and a lock period that is over. Nothing
/// else is asked; the admin need not be writable.
pub proof fn lemma_empty_accepts(
    ids: ProgramIds,
    accounts: Seq<Account>,
    data: Seq<u8>,
    tokens: TokenAccounts,
    current_slot: Option<u64>,
    address: Option<Pubkey>,
)
    ensures
        spec_process_empty_vault(ids, accounts, data, tokens, current_slot, address) is Ok <==> {
            let record = Vault::parse(accounts[0].data@);
            &&& accounts.len() == 7
            &&& data.len() == 1
            &&& accounts[5].key == ids.token_program
            &&& accounts[6].key == ids.system_program
            &&& accounts[1].is_signer
            &&& tokens.mint is Some
            &&& tokens.admin_token is Some
            &&& tokens.admin_token->0.owner == accounts[1].key
            &&& tokens.admin_token->0.mint == accounts[2].key
            &&& tokens.vault_token is Some
            &&& tokens.vault_token->0.owner == accounts[0].key
            &&& tokens.vault_token->0.mint == accounts[2].key
            &&& accounts[0].owner == ids.program
            &&& accounts[0].is_writable
            &&& accounts[0].data@.len() == 148
            &&& record.initialized()
            &&& address == Some(accounts[0].key)
            &&& record.admin == accounts[1].key
            &&& record.mint == accounts[2].key
            &&& record.vault_token == accounts[4].key
            &&& current_slot is Some
            &&& slots_elapsed(record, current_slot->0) >= record.slots_locked@
        },
{
    EmptyVaultIxData::lemma_len();
    Vault::lemma_len();
}

/// Whatever an empty request that succeeds holds, its steps are three: the
/// tokens of the vault, all of them, go to the admin's token account; the
/// vault's token account is closed on the vault's authority and what paid
/// for it goes to the admin, not to a token account; the vault's own
/// account is closed in favour of the admin.
pub proof fn lemma_empty_pays_the_admin(
    ids: ProgramIds,
    accounts: Seq<Account>,
    data: Seq<u8>,
    tokens: TokenAccounts,
    current_slot: Option<u64>,
    address: Option<Pubkey>,
)
    ensures
        spec_process_empty_vault(ids, accounts, data, tokens, current_slot, address) matches Ok(
            steps,
        ) ==> {
            &&& steps.len() == 3
            &&& steps[0] matches Step::Transfer(transfer, transfer_signer)
            &&& transfer.from == accounts[4].key
            &&& transfer.to == accounts[3].key
            &&& transfer.authority == accounts[0].key
            &&& tokens.vault_token is Some
            &&& transfer.amount == tokens.vault_token->0.amount
            &&& steps[1] matches Step::CloseAccount(close, close_signer)
            &&& close.account == accounts[4].key
            &&& close.destination == accounts[1].key
            &&& close.authority == accounts[0].key
            &&& transfer_signer == Some(close_signer)
            &&& close_signer.bump == Vault::parse(accounts[0].data@).bump
            &&& steps[2] == Step::CloseVault(
                CloseVault { vault: accounts[0].key, admin: accounts[1].key },
            )
        },
{
}

/// What the vault's account holds once the steps of a lock request have
/// been taken in slot `lock_slot`: the program owns it, and its data is the
/// record of the lock.
pub open spec fn locked_vault(
    ids: ProgramIds,
    accounts: Seq<Account>,
    lock_data: Seq<u8>,
    tokens: TokenAccounts,
    lock_slot: u64,
    vault: Account,
) -> bool {
    let ix_data = LockVaultIxData::parse(lock_data);
    &&& vault.key == accounts[0].key
    &&& vault.owner == ids.program
    &&& vault.data@ == vault_record(
        ix_data.vault_bump,
        accounts[1].key,
        accounts[2].key,
        tokens.mint->0.decimals,
        accounts[4].key,
        lock_slot,
        ix_data.slots_to_lock@,
    )
}

/// A vault that a lock request created in slot `lock_slot` can be emptied
/// by a request with the same accounts from the slot on in which the lock
/// period ends, and not before. Until then the request is refused as
/// locked; from then on it succeeds with the steps that move every token
/// back and close the vault. The token accounts must still be those of the
/// admin and of the vault.
pub proof fn lemma_empty_after_lock(
    ids: ProgramIds,
    accounts: Seq<Account>,
    lock_data: Seq<u8>,
    tokens: TokenAccounts,
    rent_lamports: Option<u64>,
    lock_slot: u64,
    later: Seq<Account>,
    later_tokens: TokenAccounts,
    current_slot: u64,
)
    requires
        spec_process_lock_vault(
            ids,
            accounts,
            lock_data,
            tokens,
            rent_lamports,
            lock_address(ids, accounts, lock_data),
        ) is Ok,
        later.len() == 7,
        locked_vault(ids, accounts, lock_data, tokens, lock_slot, later[0]),
        later[0].is_writable,
        forall|i: int| 1 <= i < 7 ==> later[i] == accounts[i],
        later_tokens.mint is Some,
        later_tokens.admin_token is Some,
        later_tokens.admin_token->0.owner == accounts[1].key,
        later_tokens.admin_token->0.mint == accounts[2].key,
        later_tokens.vault_token is Some,
        later_tokens.vault_token->0.owner == accounts[0].key,
        later_tokens.vault_token->0.mint == accounts[2].key,
    ensures
        ({
            let slots_locked = LockVaultIxData::parse(lock_data).slots_to_lock@;
            let decided = spec_process_empty_vault(
                ids,
                later,
                seq![2u8],
                later_tokens,
                Some(current_slot),
                record_address(ids.program, later[0].data@),
            );
            if slots_locked == 0 || current_slot - lock_slot >= slots_locked {
                decided == Ok::<Seq<Step>, VaultError>(empty_steps(later, later_tokens))
            } else {
                decided == Err::<Seq<Step>, VaultError>(
                    VaultError::Custom(DiamondHandsError::VaultLocked),
                )
            }
        }),
{
    let ix_data = LockVaultIxData::parse(lock_data);
    lemma_vault_record_loads(
        ix_data.vault_bump,
        accounts[1].key,
        accounts[2].key,
        tokens.mint->0.decimals,
        accounts[4].key,
        lock_slot,
        ix_data.slots_to_lock@,
    );
    Vault::lemma_len();
    EmptyVaultIxData::lemma_len();
}

} // verus!
