//! Why a request is refused.

use crate::pubkey::Pubkey;
use vstd::prelude::*;

verus! {

/// The errors that are this program's own. On the ledger each one is
/// reported as a custom error with its `code`.
#[derive(Clone, Copy, Debug, PartialEq, Eq, Structural)]
pub enum DiamondHandsError {
    /// The operation tag of the request names no operation.
    InvalidInstruction,
    /// The payload of the request has the wrong size.
    InvalidInstructionData,
    /// The lock period of the vault has not passed yet.
    VaultLocked,
}

impl DiamondHandsError {
    /// The position of the error in the enumeration.
    pub open spec fn spec_code(&self) -> u32 {
        match self {
            DiamondHandsError::InvalidInstruction => 0,
            DiamondHandsError::InvalidInstructionData => 1,
            DiamondHandsError::VaultLocked => 2,
        }
    }

    /// The custom error code under which the error is reported.
    #[verifier::when_used_as_spec(spec_code)]
    pub fn code(&self) -> (r: u32)
        ensures
            r == self.spec_code(),
    {
        match self {
            DiamondHandsError::InvalidInstruction => 0,
            DiamondHandsError::InvalidInstructionData => 1,
            DiamondHandsError::VaultLocked => 2,
        }
    }
}

/// Every way in which a request can fail. The first violation found ends
/// the request; nothing is retried.
#[derive(Clone, Copy, Debug, PartialEq, Eq, Structural)]
pub enum VaultError {
    /// One of this program's own errors.
    Custom(DiamondHandsError),
    /// The request does not name exactly the accounts that the operation
    /// takes.
    NotEnoughAccountKeys,
    /// An optional value in the payload has a tag byte other than 0 and 1.
    CorruptData,
    /// A capability provider is not the canonical one.
    IncorrectProgramId,
    /// The admin has not signed the request.
    MissingRequiredSignature,
    /// An account that the operation writes was not passed as writable.
    NotWritable,
    /// An account is not owned by the program that has to own it.
    OwnerMismatch,
    /// The account already holds data, or the record is already written.
    AlreadyInitialized,
    /// The record was never written.
    Uninitialized,
    /// A record's buffer does not have the size of the record.
    SizeMismatch,
    /// The seeds derive no address.
    InvalidSeeds,
    /// The seed list is not the one that derives the vault's address.
    SeedMismatch,
    /// The vault's address is not the one derived from admin, mint and salt.
    AddressMismatch,
    /// The admin of the request is not the admin of the record.
    AdminMismatch,
    /// The mint of the request is not the mint of the record or of a
    /// holding account.
    MintMismatch,
    /// The vault's holding account is not the one that the record names.
    VaultTokenMismatch,
    /// A holding account belongs to another owner than the operation asks.
    HolderMismatch,
    /// More tokens are to be locked than the admin holds.
    AmountExceedsBalance,
    /// An account of the asset-transfer provider could not be read as what
    /// the operation takes it for.
    InvalidAccountData,
    /// The byte is no record type tag.
    InvalidDiscriminator,
    /// The ledger's clock or rent could not be read.
    UnsupportedSysvar,
}

/// The errors of the ledger's runtime under which a refusal is reported to
/// the submitter.
#[derive(Clone, Copy, Debug, PartialEq, Eq, Structural)]
pub enum ReportedError {
    /// A custom error of the program, with its code.
    Custom(u32),
    InvalidArgument,
    InvalidInstructionData,
    InvalidAccountData,
    IncorrectProgramId,
    MissingRequiredSignature,
    AccountAlreadyInitialized,
    UninitializedAccount,
    NotEnoughAccountKeys,
    InvalidSeeds,
    UnsupportedSysvar,
    InvalidAccountOwner,
}

impl VaultError {
    /// Under which error of the runtime a refusal is reported. The
    /// program's own errors are reported as custom errors with their codes;
    /// every mismatch of accounts, sizes and seeds is reported as invalid
    /// account data, a wrong owner as an invalid owner, a corrupt payload
    /// as invalid instruction data, and a request for more than the balance
    /// as an invalid argument.
    pub open spec fn spec_reported(&self) -> ReportedError {
        match self {
            VaultError::Custom(e) => ReportedError::Custom(e.spec_code()),
            VaultError::NotEnoughAccountKeys => ReportedError::NotEnoughAccountKeys,
            VaultError::CorruptData => ReportedError::InvalidInstructionData,
            VaultError::IncorrectProgramId => ReportedError::IncorrectProgramId,
            VaultError::MissingRequiredSignature => ReportedError::MissingRequiredSignature,
            VaultError::NotWritable => ReportedError::InvalidAccountData,
            VaultError::OwnerMismatch => ReportedError::InvalidAccountOwner,
            VaultError::AlreadyInitialized => ReportedError::AccountAlreadyInitialized,
            VaultError::Uninitialized => ReportedError::UninitializedAccount,
            VaultError::SizeMismatch => ReportedError::InvalidAccountData,
            VaultError::InvalidSeeds => ReportedError::InvalidSeeds,
            VaultError::SeedMismatch => ReportedError::InvalidAccountData,
            VaultError::AddressMismatch => ReportedError::InvalidAccountData,
            VaultError::AdminMismatch => ReportedError::InvalidAccountData,
            VaultError::MintMismatch => ReportedError::InvalidAccountData,
            VaultError::VaultTokenMismatch => ReportedError::InvalidAccountData,
            VaultError::HolderMismatch => ReportedError::InvalidAccountData,
            VaultError::AmountExceedsBalance => ReportedError::InvalidArgument,
            VaultError::InvalidAccountData => ReportedError::InvalidAccountData,
            VaultError::InvalidDiscriminator => ReportedError::InvalidInstructionData,
            VaultError::UnsupportedSysvar => ReportedError::UnsupportedSysvar,
        }
    }

    #[verifier::when_used_as_spec(spec_reported)]
    pub fn reported(&self) -> (r: ReportedError)
        ensures
            r == self.spec_reported(),
    {
        match self {
            VaultError::Custom(e) => ReportedError::Custom(e.code()),
            VaultError::NotEnoughAccountKeys => ReportedError::NotEnoughAccountKeys,
            VaultError::CorruptData => ReportedError::InvalidInstructionData,
            VaultError::IncorrectProgramId => ReportedError::IncorrectProgramId,
            VaultError::MissingRequiredSignature => ReportedError::MissingRequiredSignature,
            VaultError::NotWritable => ReportedError::InvalidAccountData,
            VaultError::OwnerMismatch => ReportedError::InvalidAccountOwner,
            VaultError::AlreadyInitialized => ReportedError::AccountAlreadyInitialized,
            VaultError::Uninitialized => ReportedError::UninitializedAccount,
            VaultError::SizeMismatch => ReportedError::InvalidAccountData,
            VaultError::InvalidSeeds => ReportedError::InvalidSeeds,
            VaultError::SeedMismatch => ReportedError::InvalidAccountData,
            VaultError::AddressMismatch => ReportedError::InvalidAccountData,
            VaultError::AdminMismatch => ReportedError::InvalidAccountData,
            VaultError::MintMismatch => ReportedError::InvalidAccountData,
            VaultError::VaultTokenMismatch => ReportedError::InvalidAccountData,
            VaultError::HolderMismatch => ReportedError::InvalidAccountData,
            VaultError::AmountExceedsBalance => ReportedError::InvalidArgument,
            VaultError::InvalidAccountData => ReportedError::InvalidAccountData,
            VaultError::InvalidDiscriminator => ReportedError::InvalidInstructionData,
            VaultError::UnsupportedSysvar => ReportedError::UnsupportedSysvar,
        }
    }
}

/// The checks that a request goes through. Each failed check is one error.
#[derive(Clone, Copy, Debug, PartialEq, Eq, Structural)]
pub enum Check {
    /// The first byte of the request names an operation.
    Operation,
    /// The request names exactly seven accounts.
    AccountCount,
    /// The payload has the size of the operation's payload.
    PayloadSize,
    /// The tag of the optional amount is 0 or 1.
    AmountTag,
    /// The token program of the request is the canonical one.
    TokenProgram,
    /// The system program of the request is the canonical one.
    SystemProgram,
    /// The vault's account has the owner that the operation asks: the
    /// system program before the vault is created, the program after.
    VaultOwner,
    /// Nothing has been created at the vault's address yet.
    VaultEmpty,
    /// The vault's account is writable.
    VaultWritable,
    /// The admin has signed.
    AdminSignature,
    /// The data of the vault's account has the size of a record.
    RecordSize,
    /// The data of the vault's account holds a written record.
    RecordWritten,
    /// Admin, mint and salt derive an address.
    VaultDerivation,
    /// The vault's address is the derived one.
    VaultAddress,
    /// The admin of the request is the record's.
    RecordAdmin,
    /// The mint of the request is the record's.
    RecordMint,
    /// The vault's token account of the request is the record's.
    RecordToken,
    /// The mint can be read.
    MintAccount,
    /// The vault's token account can be read.
    VaultTokenAccount,
    /// The vault's token account belongs to the vault.
    VaultTokenOwner,
    /// The vault's token account holds tokens of the mint.
    VaultTokenMint,
    /// The admin's token account can be read.
    AdminTokenAccount,
    /// The admin's token account belongs to the admin.
    AdminTokenOwner,
    /// The admin's token account holds tokens of the mint.
    AdminTokenMint,
    /// No more tokens are to be locked than the admin holds.
    Amount,
    /// The rent for a record is known.
    Rent,
    /// The current slot is known.
    Clock,
    /// The lock period is over.
    LockPeriod,
}

impl Check {
    /// The error of a failed check.
    pub open spec fn spec_error(&self) -> VaultError {
        match self {
            Check::Operation => VaultError::Custom(DiamondHandsError::InvalidInstruction),
            Check::AccountCount => VaultError::NotEnoughAccountKeys,
            Check::PayloadSize => VaultError::Custom(DiamondHandsError::InvalidInstructionData),
            Check::AmountTag => VaultError::CorruptData,
            Check::TokenProgram => VaultError::IncorrectProgramId,
            Check::SystemProgram => VaultError::IncorrectProgramId,
            Check::VaultOwner => VaultError::OwnerMismatch,
            Check::VaultEmpty => VaultError::AlreadyInitialized,
            Check::VaultWritable => VaultError::NotWritable,
            Check::AdminSignature => VaultError::MissingRequiredSignature,
            Check::RecordSize => VaultError::SizeMismatch,
            Check::RecordWritten => VaultError::Uninitialized,
            Check::VaultDerivation => VaultError::InvalidSeeds,
            Check::VaultAddress => VaultError::AddressMismatch,
            Check::RecordAdmin => VaultError::AdminMismatch,
            Check::RecordMint => VaultError::MintMismatch,
            Check::RecordToken => VaultError::VaultTokenMismatch,
            Check::MintAccount => VaultError::InvalidAccountData,
            Check::VaultTokenAccount => VaultError::InvalidAccountData,
            Check::VaultTokenOwner => VaultError::HolderMismatch,
            Check::VaultTokenMint => VaultError::MintMismatch,
            Check::AdminTokenAccount => VaultError::InvalidAccountData,
            Check::AdminTokenOwner => VaultError::HolderMismatch,
            Check::AdminTokenMint => VaultError::MintMismatch,
            Check::Amount => VaultError::AmountExceedsBalance,
            Check::Rent => VaultError::UnsupportedSysvar,
            Check::Clock => VaultError::UnsupportedSysvar,
            Check::LockPeriod => VaultError::Custom(DiamondHandsError::VaultLocked),
        }
    }

    #[verifier::when_used_as_spec(spec_error)]
    pub fn error(&self) -> (r: VaultError)
        ensures
            r == self.spec_error(),
    {
        match self {
            Check::Operation => VaultError::Custom(DiamondHandsError::InvalidInstruction),
            Check::AccountCount => VaultError::NotEnoughAccountKeys,
            Check::PayloadSize => VaultError::Custom(DiamondHandsError::InvalidInstructionData),
            Check::AmountTag => VaultError::CorruptData,
            Check::TokenProgram => VaultError::IncorrectProgramId,
            Check::SystemProgram => VaultError::IncorrectProgramId,
            Check::VaultOwner => VaultError::OwnerMismatch,
            Check::VaultEmpty => VaultError::AlreadyInitialized,
            Check::VaultWritable => VaultError::NotWritable,
            Check::AdminSignature => VaultError::MissingRequiredSignature,
            Check::RecordSize => VaultError::SizeMismatch,
            Check::RecordWritten => VaultError::Uninitialized,
            Check::VaultDerivation => VaultError::InvalidSeeds,
            Check::VaultAddress => VaultError::AddressMismatch,
            Check::RecordAdmin => VaultError::AdminMismatch,
            Check::RecordMint => VaultError::MintMismatch,
            Check::RecordToken => VaultError::VaultTokenMismatch,
            Check::MintAccount => VaultError::InvalidAccountData,
            Check::VaultTokenAccount => VaultError::InvalidAccountData,
            Check::VaultTokenOwner => VaultError::HolderMismatch,
            Check::VaultTokenMint => VaultError::MintMismatch,
            Check::AdminTokenAccount => VaultError::InvalidAccountData,
            Check::AdminTokenOwner => VaultError::HolderMismatch,
            Check::AdminTokenMint => VaultError::MintMismatch,
            Check::Amount => VaultError::AmountExceedsBalance,
            Check::Rent => VaultError::UnsupportedSysvar,
            Check::Clock => VaultError::UnsupportedSysvar,
            Check::LockPeriod => VaultError::Custom(DiamondHandsError::VaultLocked),
        }
    }
}

/// What a failed check looked at.
#[derive(Clone, Copy, Debug, PartialEq, Eq)]
pub enum Values {
    /// Nothing that could be named.
    Nothing,
    /// The account that lacks what the check asks.
    Key(Pubkey),
    /// Two addresses that should be the same: the one found, then the one
    /// expected.
    Keys(Pubkey, Pubkey),
    /// The number that is out of range.
    Number(u64),
    /// Two numbers that disagree: the one found, then the one expected or
    /// the bound that it should have met.
    Numbers(u64, u64),
}

/// Why a request is refused: the first check that failed, and the values
/// that it compared.
#[derive(Clone, Copy, Debug, PartialEq, Eq)]
pub struct Refusal {
    pub check: Check,
    pub values: Values,
}

/// The refusal of a request at `check`, which looked at `values`.
pub open spec fn refused(check: Check, values: Values) -> Option<Refusal> {
    Some(Refusal { check, values })
}

/// What a processor hands back for a refusal: the error of its check.
pub open spec fn refusal_error(refusal: Option<Refusal>) -> Option<VaultError> {
    match refusal {
        Some(r) => Some(r.check.spec_error()),
        None => None,
    }
}

impl From<DiamondHandsError> for VaultError {
    fn from(e: DiamondHandsError) -> (ret: Self) {
        VaultError::Custom(e)
    }
}

impl vstd::std_specs::convert::FromSpecImpl<DiamondHandsError> for VaultError {
    open spec fn obeys_from_spec() -> bool {
        true
    }

    open spec fn from_spec(e: DiamondHandsError) -> Self {
        VaultError::Custom(e)
    }
}

} // verus!
