//! The lock operation: its payload and its processor.

use crate::accounts::vault::spec_create_program_address;
use crate::accounts::vault::Vault;
use crate::accounts::Account;
use crate::errors::refused;
use crate::errors::Check;
use crate::errors::Refusal;
use crate::errors::Values;
use crate::errors::VaultError;
use crate::instructions::decision;
use crate::instructions::CreateAccount;
use crate::instructions::InitializeVault;
use crate::instructions::Step;
use crate::instructions::TokenAccounts;
use crate::instructions::Transfer;
use crate::instructions::VaultSigner;
use crate::pod::le_bytes;
use crate::pod::lemma_pod_lens;
use crate::pod::zeros;
use crate::pod::Pod;
use crate::pod::PodOption;
use crate::pod::PodU64;
use crate::pubkey::pubkey_eq;
use crate::pubkey::ProgramIds;
use crate::pubkey::Pubkey;
use crate::utils::load_ix_data;
use crate::utils::load_signer;
use crate::utils::load_system_account;
use crate::utils::load_system_program;
use crate::utils::load_token_program;
use crate::utils::spec_load_program;
use crate::utils::spec_load_signer;
use crate::utils::DataLen;
use crate::utils::Discriminator;
use vstd::prelude::*;

verus! {

/// The payload of a lock request, tag byte included.
#[derive(Clone, Copy, Debug, PartialEq)]
pub struct LockVaultIxData {
    /// The operation tag.
    pub discriminator: u8,
    /// The salt with which the vault's address is derived.
    pub vault_bump: u8,
    /// For how many slots the tokens are locked.
    pub slots_to_lock: PodU64,
    /// How many tokens to lock; where absent, all that the admin holds.
    pub tokens_to_lock: PodOption<PodU64>,
}

impl DataLen for LockVaultIxData {
    const LEN: usize = 19;
}

impl Discriminator for LockVaultIxData {
    const DISCRIMINATOR: u8 = 1;
}

/// The bytes of a lock request: the tag, the salt, the lock duration in
/// little-endian order, then one presence byte and eight bytes of amount,
/// which are zero where no amount is given.
pub open spec fn lock_payload(vault_bump: u8, slots_to_lock: u64, tokens_to_lock: Option<u64>) -> Seq<
    u8,
> {
    seq![1u8, vault_bump] + le_bytes(slots_to_lock as nat, 8) + (match tokens_to_lock {
        Some(amount) => seq![1u8] + le_bytes(amount as nat, 8),
        None => zeros(9),
    })
}

impl LockVaultIxData {
    /// The size of the payload.
    pub proof fn lemma_len()
        ensures
            Self::LEN == 19,
            Self::DISCRIMINATOR == 1,
    {
    }

    /// The amount to lock, where the payload names one.
    pub open spec fn amount(&self) -> Option<u64> {
        match self.tokens_to_lock@ {
            Some(amount) => Some(amount@),
            None => None,
        }
    }

    /// The payload of a request to lock `tokens_to_lock` tokens, or all of
    /// them, for `slots_to_lock` slots in the vault with salt `vault_bump`.
    pub fn new(vault_bump: u8, slots_to_lock: u64, tokens_to_lock: Option<u64>) -> (r: Self)
        ensures
            r.discriminator == Self::DISCRIMINATOR,
            r.vault_bump == vault_bump,
            r.slots_to_lock@ == slots_to_lock,
            r.amount() == tokens_to_lock,
            r.tokens_to_lock.spec_tag() == (if tokens_to_lock is Some { 1u8 } else { 0u8 }),
            r.wf(),
            r.layout() == lock_payload(vault_bump, slots_to_lock, tokens_to_lock),
    {
        let tokens = match tokens_to_lock {
            Some(amount) => PodOption::some(PodU64::from(amount)),
            None => PodOption::none(),
        };
        let r = LockVaultIxData {
            discriminator: 1,
            vault_bump,
            slots_to_lock: PodU64::from(slots_to_lock),
            tokens_to_lock: tokens,
        };
        proof {
            lemma_pod_lens();
            assert(r.layout() =~= lock_payload(vault_bump, slots_to_lock, tokens_to_lock));
        }
        r
    }

    /// The bytes of the request.
    pub fn to_bytes(&self) -> (r: Vec<u8>)
        ensures
            r@ == self.layout(),
            r@.len() == Self::LEN,
    {
        crate::utils::to_bytes::<Self>(self)
    }
}

impl Pod for LockVaultIxData {
    open spec fn wf(&self) -> bool {
        self.tokens_to_lock.wf()
    }

    open spec fn layout(&self) -> Seq<u8> {
        seq![self.discriminator, self.vault_bump] + self.slots_to_lock.layout()
            + self.tokens_to_lock.layout()
    }

    open spec fn parse(bytes: Seq<u8>) -> Self {
        LockVaultIxData {
            discriminator: bytes[0],
            vault_bump: bytes[1],
            slots_to_lock: PodU64::parse(bytes.subrange(2, 10)),
            tokens_to_lock: PodOption::<PodU64>::parse(bytes.subrange(10, 19)),
        }
    }

    proof fn lemma_layout_len(v: Self) {
        lemma_pod_lens();
        PodOption::<PodU64>::lemma_layout_len(v.tokens_to_lock);
    }

    proof fn lemma_parse_layout(v: Self) {
        let bytes = v.layout();
        lemma_pod_lens();
        PodOption::<PodU64>::lemma_layout_len(v.tokens_to_lock);
        assert(bytes.subrange(2, 10) =~= v.slots_to_lock.layout());
        assert(bytes.subrange(10, 19) =~= v.tokens_to_lock.layout());
        PodU64::lemma_parse_layout(v.slots_to_lock);
        PodOption::<PodU64>::lemma_parse_layout(v.tokens_to_lock);
    }

    proof fn lemma_parse_wf(bytes: Seq<u8>) {
        lemma_pod_lens();
        PodOption::<PodU64>::lemma_parse_wf(bytes.subrange(10, 19));
    }

    fn decode(bytes: &[u8]) -> (r: Self) {
        proof {
            lemma_pod_lens();
        }
        LockVaultIxData {
            discriminator: bytes[0],
            vault_bump: bytes[1],
            slots_to_lock: PodU64::decode(vstd::slice::slice_subrange(bytes, 2, 10)),
            tokens_to_lock: PodOption::<PodU64>::decode(vstd::slice::slice_subrange(bytes, 10, 19)),
        }
    }

    fn encode(&self, out: &mut Vec<u8>) {
        out.push(self.discriminator);
        out.push(self.vault_bump);
        self.slots_to_lock.encode(out);
        self.tokens_to_lock.encode(out);
        assert(out@ =~= old(out)@ + self.layout());
    }
}

/// How many tokens a lock request locks: the amount that it names, or all
/// that the admin holds where it names none.
pub open spec fn lock_amount(ix_data: LockVaultIxData, all_tokens: u64) -> u64 {
    match ix_data.amount() {
        Some(amount) => amount,
        None => all_tokens,
    }
}

/// The address that a lock request derives for its vault, where it
/// derives one: from the admin and the mint among its accounts and the salt
/// in its payload.
pub open spec fn lock_address(ids: ProgramIds, accounts: Seq<Account>, data: Seq<u8>) -> Option<
    Pubkey,
> {
    match spec_create_program_address(
        ids.program,
        accounts[1].key,
        accounts[2].key,
        LockVaultIxData::parse(data).vault_bump,
    ) {
        Ok(address) => Some(address),
        Err(_) => None,
    }
}

/// The steps of a lock request, in their order: create the vault's account
/// with the size of a record, owned by the program and paid for by the
/// admin, signing as the vault; write the record into it; move the tokens
/// from the admin's token account to the vault's, on the admin's own
/// signature.
pub open spec fn lock_steps(
    ids: ProgramIds,
    accounts: Seq<Account>,
    ix_data: LockVaultIxData,
    tokens: TokenAccounts,
    rent_lamports: u64,
) -> Seq<Step> {
    let vault = accounts[0];
    let admin = accounts[1];
    let mint = accounts[2];
    let admin_token = accounts[3];
    let vault_token = accounts[4];
    seq![
        Step::CreateAccount(
            CreateAccount {
                from: admin.key,
                to: vault.key,
                lamports: rent_lamports,
                space: 148,
                owner: ids.program,
            },
            VaultSigner { admin: admin.key, mint: mint.key, bump: ix_data.vault_bump },
        ),
        Step::Initialize(
            InitializeVault {
                vault: vault.key,
                admin: admin.key,
                mint: mint.key,
                ix_data,
                vault_token: vault_token.key,
                mint_decimals: tokens.mint->0.decimals,
            },
        ),
        Step::Transfer(
            Transfer {
                from: admin_token.key,
                to: vault_token.key,
                authority: admin.key,
                amount: lock_amount(ix_data, tokens.admin_token->0.amount),
            },
            None,
        ),
    ]
}

/// Why a lock request is refused, once the address that it derives is
/// known; `None` where it passes every check. The accounts are, in this
/// order: vault, admin, mint, the admin's token account, the vault's token
/// account, the token program, the system program. The checks run in the
/// order written here, and the first that fails decides. Of the vault's
/// address it is asked that nothing has been created there yet; of the
/// admin, that it has signed. `rent_lamports` is the balance that a
/// record's account needs, where the ledger's rent could be read.
pub open spec fn spec_lock_refusal(
    ids: ProgramIds,
    accounts: Seq<Account>,
    data: Seq<u8>,
    tokens: TokenAccounts,
    rent_lamports: Option<u64>,
    address: Option<Pubkey>,
) -> Option<Refusal> {
    let vault = accounts[0];
    let admin = accounts[1];
    let mint = accounts[2];
    let vault_token = accounts[4];
    let token_program = accounts[5];
    let system_program = accounts[6];
    let ix_data = LockVaultIxData::parse(data);
    if accounts.len() != 7 {
        refused(Check::AccountCount, Values::Numbers(accounts.len() as u64, 7))
    } else if data.len() != LockVaultIxData::LEN {
        refused(Check::PayloadSize, Values::Numbers(data.len() as u64, 19))
    } else if ix_data.tokens_to_lock.spec_tag() != 0 && ix_data.tokens_to_lock.spec_tag() != 1 {
        refused(Check::AmountTag, Values::Number(ix_data.tokens_to_lock.spec_tag() as u64))
    } else if spec_load_program(&token_program, &ids.token_program) is Err {
        refused(Check::TokenProgram, Values::Keys(token_program.key, ids.token_program))
    } else if spec_load_program(&system_program, &ids.system_program) is Err {
        refused(Check::SystemProgram, Values::Keys(system_program.key, ids.system_program))
    } else if vault.owner != ids.system_program {
        refused(Check::VaultOwner, Values::Keys(vault.owner, ids.system_program))
    } else if vault.data@.len() != 0 {
        refused(Check::VaultEmpty, Values::Numbers(vault.data@.len() as u64, 0))
    } else if spec_load_signer(&admin, false) is Err {
        refused(Check::AdminSignature, Values::Key(admin.key))
    } else if address is None {
        refused(Check::VaultDerivation, Values::Number(ix_data.vault_bump as u64))
    } else if vault.key != address->0 {
        refused(Check::VaultAddress, Values::Keys(vault.key, address->0))
    } else if tokens.mint is None {
        refused(Check::MintAccount, Values::Key(mint.key))
    } else if tokens.vault_token is None {
        refused(Check::VaultTokenAccount, Values::Key(vault_token.key))
    } else if tokens.vault_token->0.owner != vault.key {
        refused(Check::VaultTokenOwner, Values::Keys(tokens.vault_token->0.owner, vault.key))
    } else if tokens.vault_token->0.mint != mint.key {
        refused(Check::VaultTokenMint, Values::Keys(tokens.vault_token->0.mint, mint.key))
    } else if tokens.admin_token is None {
        refused(Check::AdminTokenAccount, Values::Key(accounts[3].key))
    } else if tokens.admin_token->0.owner != admin.key {
        refused(Check::AdminTokenOwner, Values::Keys(tokens.admin_token->0.owner, admin.key))
    } else if tokens.admin_token->0.mint != mint.key {
        refused(Check::AdminTokenMint, Values::Keys(tokens.admin_token->0.mint, mint.key))
    } else if lock_amount(ix_data, tokens.admin_token->0.amount) > tokens.admin_token->0.amount {
        refused(
            Check::Amount,
            Values::Numbers(
                lock_amount(ix_data, tokens.admin_token->0.amount),
                tokens.admin_token->0.amount,
            ),
        )
    } else if rent_lamports is None {
        refused(Check::Rent, Values::Nothing)
    } else {
        None
    }
}

/// What the lock operation decides on a request, once the address that the
/// request derives is known: the error of the first check that fails, as
/// `spec_lock_refusal` names it, or the steps of the lock.
pub open spec fn spec_process_lock_vault(
    ids: ProgramIds,
    accounts: Seq<Account>,
    data: Seq<u8>,
    tokens: TokenAccounts,
    rent_lamports: Option<u64>,
    address: Option<Pubkey>,
) -> Result<Seq<Step>, VaultError> {
    match spec_lock_refusal(ids, accounts, data, tokens, rent_lamports, address) {
        Some(refusal) => Err(refusal.check.spec_error()),
        None => Ok(
            lock_steps(ids, accounts, LockVaultIxData::parse(data), tokens, rent_lamports->0),
        ),
    }
}

/// Derives the address of the vault of a lock request, where the request
/// has its seven accounts and a payload of the right size.
pub fn derive_lock_address(ids: &ProgramIds, accounts: &[Account], data: &[u8]) -> (r: Option<
    Pubkey,
>)
    ensures
        accounts@.len() == 7 && data@.len() == LockVaultIxData::LEN ==> r == lock_address(
            *ids,
            accounts@,
            data@,
        ),
{
    if accounts.len() == 7 && data.len() == LockVaultIxData::LEN {
        let ix_data = LockVaultIxData::decode(data);
        match Vault::create_program_address(
            &ids.program,
            &accounts[1].key,
            &accounts[2].key,
            ix_data.vault_bump,
        ) {
            Ok(address) => Some(address),
            Err(_) => None,
        }
    } else {
        None
    }
}

/// Decides on a lock request: checks its accounts and its payload, and
/// says which steps are to be taken. `tokens` is what the token program
/// says of the request's mint and token accounts; `rent_lamports` is the
/// balance that a record's account needs, or `None` where the ledger's rent
/// could not be read. Nothing is changed.
pub fn process_lock_vault(
    ids: &ProgramIds,
    accounts: &[Account],
    data: &[u8],
    tokens: &TokenAccounts,
    rent_lamports: Option<u64>,
) -> (r: Result<Vec<Step>, VaultError>)
    ensures
        decision(r) == spec_process_lock_vault(
            *ids,
            accounts@,
            data@,
            *tokens,
            rent_lamports,
            lock_address(*ids, accounts@, data@),
        ),
{
    let address = derive_lock_address(ids, accounts, data);
    process_lock_vault_with_address(ids, accounts, data, tokens, rent_lamports, address)
}

/// Why `process_lock_vault` refuses a request: the first check that fails
/// and the values that it compared; `None` where the request succeeds.
pub fn lock_vault_refusal(
    ids: &ProgramIds,
    accounts: &[Account],
    data: &[u8],
    tokens: &TokenAccounts,
    rent_lamports: Option<u64>,
) -> (r: Option<Refusal>)
    ensures
        r == spec_lock_refusal(
            *ids,
            accounts@,
            data@,
            *tokens,
            rent_lamports,
            lock_address(*ids, accounts@, data@),
        ),
{
    let address = derive_lock_address(ids, accounts, data);
    lock_vault_refusal_with_address(ids, accounts, data, tokens, rent_lamports, address)
}

/// The decision of `process_lock_vault`, with the address that the request
/// derives for its vault handed in.
pub fn process_lock_vault_with_address(
    ids: &ProgramIds,
    accounts: &[Account],
    data: &[u8],
    tokens: &TokenAccounts,
    rent_lamports: Option<u64>,
    address: Option<Pubkey>,
) -> (r: Result<Vec<Step>, VaultError>)
    ensures
        decision(r) == spec_process_lock_vault(
            *ids,
            accounts@,
            data@,
            *tokens,
            rent_lamports,
            address,
        ),
{
    if let Some(refusal) = lock_vault_refusal_with_address(
        ids,
        accounts,
        data,
        tokens,
        rent_lamports,
        address,
    ) {
        return Err(refusal.check.error());
    }
    let vault = &accounts[0];
    let admin = &accounts[1];
    let mint = &accounts[2];
    let admin_token = &accounts[3];
    let vault_token = &accounts[4];
    let ix_data = load_ix_data::<LockVaultIxData>(data)?;
    let (mint_state, admin_token_account, rent) = match (
        tokens.mint,
        tokens.admin_token,
        rent_lamports,
    ) {
        (Some(mint_state), Some(admin_token_account), Some(rent)) => (
            mint_state,
            admin_token_account,
            rent,
        ),
        _ => {
            return Err(VaultError::InvalidAccountData);
        },
    };
    let tokens_to_lock = match ix_data.tokens_to_lock.as_ref() {
        Some(tokens_to_lock) => tokens_to_lock.get(),
        None => admin_token_account.amount,
    };
    // The signing seeds are checked once more against admin, mint and salt
    // before anything is signed with them.
    let signing_seeds = Vault::vault_seed_with_bump(&admin.key, &mint.key, ix_data.vault_bump);
    Vault::check_seeds(&admin.key, &mint.key, ix_data.vault_bump, &signing_seeds)?;

    proof {
        Vault::lemma_len();
    }
    let signer = VaultSigner { admin: admin.key, mint: mint.key, bump: ix_data.vault_bump };
    let mut steps: Vec<Step> = Vec::new();
    steps.push(
        Step::CreateAccount(
            CreateAccount {
                from: admin.key,
                to: vault.key,
                lamports: rent,
                space: Vault::LEN as u64,
                owner: ids.program,
            },
            signer,
        ),
    );
    steps.push(
        Step::Initialize(
            InitializeVault {
                vault: vault.key,
                admin: admin.key,
                mint: mint.key,
                ix_data,
                vault_token: vault_token.key,
                mint_decimals: mint_state.decimals,
            },
        ),
    );
    steps.push(
        Step::Transfer(
            Transfer {
                from: admin_token.key,
                to: vault_token.key,
                authority: admin.key,
                amount: tokens_to_lock,
            },
            None,
        ),
    );
    proof {
        assert(steps@ =~= lock_steps(*ids, accounts@, ix_data, *tokens, rent));
    }
    Ok(steps)
}

/// The refusal of `lock_vault_refusal`, with the address that the request
/// derives for its vault handed in.
pub fn lock_vault_refusal_with_address(
    ids: &ProgramIds,
    accounts: &[Account],
    data: &[u8],
    tokens: &TokenAccounts,
    rent_lamports: Option<u64>,
    address: Option<Pubkey>,
) -> (r: Option<Refusal>)
    ensures
        r == spec_lock_refusal(*ids, accounts@, data@, *tokens, rent_lamports, address),
{
    proof {
        LockVaultIxData::lemma_len();
    }
    if accounts.len() != 7 {
        return Some(
            Refusal {
                check: Check::AccountCount,
                values: Values::Numbers(accounts.len() as u64, 7),
            },
        );
    }
    let vault = &accounts[0];
    let admin = &accounts[1];
    let mint = &accounts[2];
    let admin_token = &accounts[3];
    let vault_token = &accounts[4];
    let token_program = &accounts[5];
    let system_program = &accounts[6];
    let ix_data = match load_ix_data::<LockVaultIxData>(data) {
        Ok(ix_data) => ix_data,
        Err(_) => {
            return Some(
                Refusal {
                    check: Check::PayloadSize,
                    values: Values::Numbers(data.len() as u64, 19),
                },
            );
        },
    };
    if !ix_data.tokens_to_lock.is_valid_tag() {
        return Some(
            Refusal {
                check: Check::AmountTag,
                values: Values::Number(ix_data.tokens_to_lock.tag() as u64),
            },
        );
    }
    if load_token_program(token_program, &ids.token_program).is_err() {
        return Some(
            Refusal {
                check: Check::TokenProgram,
                values: Values::Keys(token_program.key, ids.token_program),
            },
        );
    }
    if load_system_program(system_program, &ids.system_program).is_err() {
        return Some(
            Refusal {
                check: Check::SystemProgram,
                values: Values::Keys(system_program.key, ids.system_program),
            },
        );
    }
    // Nothing may have been created at the vault's address yet.
    match load_system_account(vault, false, &ids.system_program) {
        Ok(()) => {},
        Err(VaultError::OwnerMismatch) => {
            return Some(
                Refusal {
                    check: Check::VaultOwner,
                    values: Values::Keys(vault.owner, ids.system_program),
                },
            );
        },
        Err(_) => {
            return Some(
                Refusal {
                    check: Check::VaultEmpty,
                    values: Values::Numbers(vault.data.len() as u64, 0),
                },
            );
        },
    }
    if load_signer(admin, false).is_err() {
        return Some(Refusal { check: Check::AdminSignature, values: Values::Key(admin.key) });
    }
    let pda = match address {
        Some(pda) => pda,
        None => {
            return Some(
                Refusal {
                    check: Check::VaultDerivation,
                    values: Values::Number(ix_data.vault_bump as u64),
                },
            );
        },
    };
    if !pubkey_eq(&vault.key, &pda) {
        return Some(
            Refusal { check: Check::VaultAddress, values: Values::Keys(vault.key, pda) },
        );
    }
    if tokens.mint.is_none() {
        return Some(Refusal { check: Check::MintAccount, values: Values::Key(mint.key) });
    }
    match tokens.vault_token {
        Some(vault_token_account) => {
            if !pubkey_eq(&vault_token_account.owner, &vault.key) {
                return Some(
                    Refusal {
                        check: Check::VaultTokenOwner,
                        values: Values::Keys(vault_token_account.owner, vault.key),
                    },
                );
            }
            if !pubkey_eq(&vault_token_account.mint, &mint.key) {
                return Some(
                    Refusal {
                        check: Check::VaultTokenMint,
                        values: Values::Keys(vault_token_account.mint, mint.key),
                    },
                );
            }
        },
        None => {
            return Some(
                Refusal { check: Check::VaultTokenAccount, values: Values::Key(vault_token.key) },
            );
        },
    }
    let all_tokens = match tokens.admin_token {
        Some(admin_token_account) => {
            if !pubkey_eq(&admin_token_account.owner, &admin.key) {
                return Some(
                    Refusal {
                        check: Check::AdminTokenOwner,
                        values: Values::Keys(admin_token_account.owner, admin.key),
                    },
                );
            }
            if !pubkey_eq(&admin_token_account.mint, &mint.key) {
                return Some(
                    Refusal {
                        check: Check::AdminTokenMint,
                        values: Values::Keys(admin_token_account.mint, mint.key),
                    },
                );
            }
            admin_token_account.amount
        },
        None => {
            return Some(
                Refusal { check: Check::AdminTokenAccount, values: Values::Key(admin_token.key) },
            );
        },
    };
    let tokens_to_lock = match ix_data.tokens_to_lock.as_ref() {
        Some(tokens_to_lock) => tokens_to_lock.get(),
        None => all_tokens,
    };
    if tokens_to_lock > all_tokens {
        return Some(
            Refusal { check: Check::Amount, values: Values::Numbers(tokens_to_lock, all_tokens) },
        );
    }
    if rent_lamports.is_none() {
        return Some(Refusal { check: Check::Rent, values: Values::Nothing });
    }
    None
}

/// No lock request succeeds against an address at which an account exists
/// already, whatever else the request holds: an account that the system
/// program does not own, or that holds data, fails the check that comes
/// before the vault is created, so a vault is never written twice.
pub proof fn lemma_lock_refuses_existing_account(
    ids: ProgramIds,
    accounts: Seq<Account>,
    data: Seq<u8>,
    tokens: TokenAccounts,
    rent_lamports: Option<u64>,
    address: Option<Pubkey>,
)
    requires
        accounts.len() == 7,
        accounts[0].owner != ids.system_program || accounts[0].data@.len() != 0,
    ensures
        spec_process_lock_vault(ids, accounts, data, tokens, rent_lamports, address) is Err,
        ({
            let ix_data = LockVaultIxData::parse(data);
            &&& data.len() == LockVaultIxData::LEN
            &&& ix_data.tokens_to_lock.spec_tag() == 0 || ix_data.tokens_to_lock.spec_tag() == 1
            &&& accounts[5].key == ids.token_program
            &&& accounts[6].key == ids.system_program
        }) ==> spec_process_lock_vault(ids, accounts, data, tokens, rent_lamports, address)
            == Err::<Seq<Step>, VaultError>(
            if accounts[0].owner != ids.system_program {
                VaultError::OwnerMismatch
            } else {
                VaultError::AlreadyInitialized
            },
        ),
{
}

/// A lock request that succeeds moves exactly the amount that it names, or
/// the admin's whole balance where it names none, and never more than the
/// admin holds: a request for more is refused.
pub proof fn lemma_lock_amount_within_balance(
    ids: ProgramIds,
    accounts: Seq<Account>,
    data: Seq<u8>,
    tokens: TokenAccounts,
    rent_lamports: Option<u64>,
    address: Option<Pubkey>,
)
    ensures
        spec_process_lock_vault(ids, accounts, data, tokens, rent_lamports, address) matches Ok(
            steps,
        ) ==> {
            &&& tokens.admin_token is Some
            &&& steps.len() == 3
            &&& steps[2] matches Step::Transfer(request, signer)
            &&& request.amount <= tokens.admin_token->0.amount
            &&& request.amount == lock_amount(
                LockVaultIxData::parse(data),
                tokens.admin_token->0.amount,
            )
        },
        ({
            &&& accounts.len() == 7
            &&& tokens.admin_token is Some
            &&& lock_amount(LockVaultIxData::parse(data), tokens.admin_token->0.amount)
                > tokens.admin_token->0.amount
        }) ==> spec_process_lock_vault(ids, accounts, data, tokens, rent_lamports, address) is Err,
{
}

/// A lock request passes its checks exactly where everything that is
/// asked of it holds: seven accounts, a payload of the right size with a
/// tag of 0 or 1, the two canonical providers, nothing yet at the vault's
/// address, an admin who has signed, the vault's address derived from
/// admin, mint and salt, a mint and two token accounts that can be read and
/// belong to vault and admin, an amount within the admin's balance, and a
/// known rent. Nothing else is asked: neither the admin nor the vault's
/// address need be writable.
pub proof fn lemma_lock_accepts(
    ids: ProgramIds,
    accounts: Seq<Account>,
    data: Seq<u8>,
    tokens: TokenAccounts,
    rent_lamports: Option<u64>,
    address: Option<Pubkey>,
)
    ensures
        spec_process_lock_vault(ids, accounts, data, tokens, rent_lamports, address) is Ok <==> {
            let ix_data = LockVaultIxData::parse(data);
            &&& accounts.len() == 7
            &&& data.len() == 19
            &&& ix_data.tokens_to_lock.spec_tag() == 0 || ix_data.tokens_to_lock.spec_tag() == 1
            &&& accounts[5].key == ids.token_program
            &&& accounts[6].key == ids.system_program
            &&& accounts[0].owner == ids.system_program
            &&& accounts[0].data@.len() == 0
            &&& accounts[1].is_signer
            &&& address == Some(accounts[0].key)
            &&& tokens.mint is Some
            &&& tokens.vault_token is Some
            &&& tokens.vault_token->0.owner == accounts[0].key
            &&& tokens.vault_token->0.mint == accounts[2].key
            &&& tokens.admin_token is Some
            &&& tokens.admin_token->0.owner == accounts[1].key
            &&& tokens.admin_token->0.mint == accounts[2].key
            &&& lock_amount(ix_data, tokens.admin_token->0.amount)
                <= tokens.admin_token->0.amount
            &&& rent_lamports is Some
        },
{
    LockVaultIxData::lemma_len();
}

} // verus!
