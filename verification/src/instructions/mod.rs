//! The operations of the program and what their processors hand back.

use crate::errors::DiamondHandsError;
use crate::errors::VaultError;
use crate::instructions::lock_vault::LockVaultIxData;
use crate::pubkey::Pubkey;
use vstd::prelude::*;

pub mod empty_vault;
pub mod lock_vault;

verus! {

/// The operations, each with its tag byte: the first byte of a request.
/// No tag is 0.
#[derive(Clone, Copy, Debug, PartialEq, Eq, Structural)]
pub enum VaultProgramInstructions {
    LockVault,
    EmptyVault,
}

impl VaultProgramInstructions {
    /// The tag byte of the operation.
    pub open spec fn spec_tag(&self) -> u8 {
        match self {
            VaultProgramInstructions::LockVault => 1,
            VaultProgramInstructions::EmptyVault => 2,
        }
    }

    #[verifier::when_used_as_spec(spec_tag)]
    pub fn tag(&self) -> (r: u8)
        ensures
            r == self.spec_tag(),
            r != 0,
    {
        match self {
            VaultProgramInstructions::LockVault => 1,
            VaultProgramInstructions::EmptyVault => 2,
        }
    }
}

impl TryFrom<&u8> for VaultProgramInstructions {
    type Error = DiamondHandsError;

    fn try_from(value: &u8) -> (ret: Result<Self, Self::Error>) {
        match *value {
            1 => Ok(VaultProgramInstructions::LockVault),
            2 => Ok(VaultProgramInstructions::EmptyVault),
            _ => Err(DiamondHandsError::InvalidInstruction),
        }
    }
}

impl vstd::std_specs::convert::TryFromSpecImpl<&u8> for VaultProgramInstructions {
    open spec fn obeys_try_from_spec() -> bool {
        true
    }

    open spec fn try_from_spec(value: &u8) -> Result<Self, Self::Error> {
        if *value == 1 {
            Ok(VaultProgramInstructions::LockVault)
        } else if *value == 2 {
            Ok(VaultProgramInstructions::EmptyVault)
        } else {
            Err(DiamondHandsError::InvalidInstruction)
        }
    }
}

/// The mint of a token, as far as the processors read it.
#[derive(Clone, Copy, Debug, PartialEq, Eq)]
pub struct Mint {
    /// How many decimals an amount of the token has.
    pub decimals: u8,
}

/// A token account, as far as the processors read it.
#[derive(Clone, Copy, Debug, PartialEq, Eq)]
pub struct TokenAccount {
    /// The mint of the tokens in the account.
    pub mint: Pubkey,
    /// Who may move the tokens.
    pub owner: Pubkey,
    /// How many tokens the account holds.
    pub amount: u64,
}

/// What the token program says of the three accounts of a request that are
/// its own. An entry is `None` where the account is not what the request
/// takes it for: it has another size, or the token program does not own it.
#[derive(Clone, Copy, Debug, PartialEq, Eq)]
pub struct TokenAccounts {
    /// The mint of the request.
    pub mint: Option<Mint>,
    /// The token account of the admin.
    pub admin_token: Option<TokenAccount>,
    /// The token account of the vault.
    pub vault_token: Option<TokenAccount>,
}

/// A request to the system program: create the account `to`, with `space`
/// bytes of data, owned by `owner` and funded with `lamports` by `from`.
#[derive(Clone, Copy, Debug, PartialEq, Eq)]
pub struct CreateAccount {
    pub from: Pubkey,
    pub to: Pubkey,
    pub lamports: u64,
    pub space: u64,
    pub owner: Pubkey,
}

/// A request to the token program: move `amount` tokens from one token
/// account to another, on the word of `authority`.
#[derive(Clone, Copy, Debug, PartialEq, Eq)]
pub struct Transfer {
    pub from: Pubkey,
    pub to: Pubkey,
    pub authority: Pubkey,
    pub amount: u64,
}

/// A request to the token program: close the empty token account
/// `account` and hand what paid for it to `destination`, on the word of
/// `authority`.
#[derive(Clone, Copy, Debug, PartialEq, Eq)]
pub struct CloseAccount {
    pub account: Pubkey,
    pub destination: Pubkey,
    pub authority: Pubkey,
}

/// The seeds with which the program signs as a vault: the label, then
/// these three.
#[derive(Clone, Copy, Debug, PartialEq, Eq)]
pub struct VaultSigner {
    pub admin: Pubkey,
    pub mint: Pubkey,
    pub bump: u8,
}

/// What `Vault::initialize` is to write into the account at `vault`, in
/// the slot in which it is written.
#[derive(Clone, Copy, Debug, PartialEq)]
pub struct InitializeVault {
    pub vault: Pubkey,
    pub admin: Pubkey,
    pub mint: Pubkey,
    pub ix_data: LockVaultIxData,
    pub vault_token: Pubkey,
    pub mint_decimals: u8,
}

/// What `Vault::close` is to close: the account at `vault`, in favour of
/// `admin`.
#[derive(Clone, Copy, Debug, PartialEq, Eq)]
pub struct CloseVault {
    pub vault: Pubkey,
    pub admin: Pubkey,
}

/// One step of carrying out a request that passed every check. The steps
/// of a request are taken in their order; if one fails, the request fails
/// as a whole.
#[derive(Clone, Copy, Debug, PartialEq)]
pub enum Step {
    /// Ask the system program to create the vault's account; the program
    /// signs as the vault.
    CreateAccount(CreateAccount, VaultSigner),
    /// Write the record of the lock into the vault's account.
    Initialize(InitializeVault),
    /// Ask the token program to move tokens. Where a signer is given the
    /// program signs as the vault; where none is, the authority has signed
    /// the request itself.
    Transfer(Transfer, Option<VaultSigner>),
    /// Ask the token program to close a token account; the program signs
    /// as the vault.
    CloseAccount(CloseAccount, VaultSigner),
    /// Wipe the vault's account and hand its balance to the admin.
    CloseVault(CloseVault),
}

/// What a processor hands back, with the steps as a sequence.
pub open spec fn decision(r: Result<Vec<Step>, VaultError>) -> Result<Seq<Step>, VaultError> {
    match r {
        Ok(steps) => Ok(steps@),
        Err(e) => Err(e),
    }
}

} // verus!
