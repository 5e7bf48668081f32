//! Traits that every persisted record and request payload implements, the
//! decoding of their buffers, and the checks that the processors run on
//! single accounts.

use crate::accounts::Account;
use crate::errors::DiamondHandsError;
use crate::errors::VaultError;
use crate::pod::Pod;
use crate::pubkey::pubkey_eq;
use crate::pubkey::Pubkey;
use vstd::prelude::*;

verus! {

/// The tag byte that marks a record or payload of this type.
pub trait Discriminator {
    const DISCRIMINATOR: u8;
}

/// The exact size of the type's byte layout.
pub trait DataLen {
    const LEN: usize;
}

/// Whether a record has been deliberately written.
pub trait Initialized {
    spec fn initialized(&self) -> bool;

    fn is_initialized(&self) -> (r: bool)
        ensures
            r == self.initialized(),
    ;
}

/// What decoding a record's buffer gives, whether or not the record was
/// ever written: a buffer of any other size than the record's is refused.
pub open spec fn spec_load_account_unchecked<T: Pod>(bytes: Seq<u8>) -> Result<T, VaultError> {
    if bytes.len() != T::LEN {
        Err(VaultError::SizeMismatch)
    } else {
        Ok(T::parse(bytes))
    }
}

/// What decoding a record's buffer gives: a buffer of the wrong size is
/// refused, and so is a record that was never written.
pub open spec fn spec_load_account<T: Pod + Initialized>(bytes: Seq<u8>) -> Result<
    T,
    VaultError,
> {
    if bytes.len() != T::LEN {
        Err(VaultError::SizeMismatch)
    } else if !T::parse(bytes).initialized() {
        Err(VaultError::Uninitialized)
    } else {
        Ok(T::parse(bytes))
    }
}

/// What decoding a request's payload gives: a payload of any other size
/// than the type's is refused.
pub open spec fn spec_load_ix_data<T: Pod>(bytes: Seq<u8>) -> Result<T, VaultError> {
    if bytes.len() != T::LEN {
        Err(VaultError::Custom(DiamondHandsError::InvalidInstructionData))
    } else {
        Ok(T::parse(bytes))
    }
}

/// Decodes a record that has been written.
pub fn load_account<T: Pod + Initialized>(bytes: &[u8]) -> (r: Result<T, VaultError>)
    ensures
        r == spec_load_account::<T>(bytes@),
{
    let account = load_account_unchecked::<T>(bytes)?;
    if account.is_initialized() {
        Ok(account)
    } else {
        Err(VaultError::Uninitialized)
    }
}

/// Decodes a record without asking whether it has been written.
pub fn load_account_unchecked<T: Pod>(bytes: &[u8]) -> (r: Result<T, VaultError>)
    ensures
        r == spec_load_account_unchecked::<T>(bytes@),
{
    if bytes.len() != T::LEN {
        return Err(VaultError::SizeMismatch);
    }
    Ok(T::decode(bytes))
}

/// Decodes the payload of a request.
pub fn load_ix_data<T: Pod>(bytes: &[u8]) -> (r: Result<T, VaultError>)
    ensures
        r == spec_load_ix_data::<T>(bytes@),
{
    if bytes.len() != T::LEN {
        return Err(VaultError::Custom(DiamondHandsError::InvalidInstructionData));
    }
    Ok(T::decode(bytes))
}

/// The byte layout of a value.
pub fn to_bytes<T: Pod>(data: &T) -> (r: Vec<u8>)
    ensures
        r@ == data.layout(),
        r@.len() == T::LEN,
{
    let mut out: Vec<u8> = Vec::new();
    data.encode(&mut out);
    proof {
        T::lemma_layout_len(*data);
        assert(out@ =~= data.layout());
    }
    out
}

/// An account that has to have signed the request: it is refused where it
/// has not, and where it has to be writable and is not.
pub open spec fn spec_load_signer(info: &Account, expect_writable: bool) -> Result<(), VaultError> {
    if !info.is_signer {
        Err(VaultError::MissingRequiredSignature)
    } else if expect_writable && !info.is_writable {
        Err(VaultError::NotWritable)
    } else {
        Ok(())
    }
}

#[verifier::when_used_as_spec(spec_load_signer)]
pub fn load_signer(info: &Account, expect_writable: bool) -> (r: Result<(), VaultError>)
    ensures
        r == spec_load_signer(info, expect_writable),
{
    if !info.is_signer {
        return Err(VaultError::MissingRequiredSignature);
    }
    if expect_writable && !info.is_writable {
        return Err(VaultError::NotWritable);
    }
    Ok(())
}

/// An account that has to be a given program: it is refused where its
/// address is another.
pub open spec fn spec_load_program(info: &Account, program: &Pubkey) -> Result<(), VaultError> {
    if info.key != *program {
        Err(VaultError::IncorrectProgramId)
    } else {
        Ok(())
    }
}

/// Checks that the account is the token program.
pub fn load_token_program(info: &Account, token_program: &Pubkey) -> (r: Result<(), VaultError>)
    ensures
        r == spec_load_program(info, token_program),
{
    if !pubkey_eq(&info.key, token_program) {
        return Err(VaultError::IncorrectProgramId);
    }
    Ok(())
}

/// Checks that the account is the system program.
pub fn load_system_program(info: &Account, system_program: &Pubkey) -> (r: Result<
    (),
    VaultError,
>)
    ensures
        r == spec_load_program(info, system_program),
{
    if !pubkey_eq(&info.key, system_program) {
        return Err(VaultError::IncorrectProgramId);
    }
    Ok(())
}

/// An address at which nothing has been created yet: the account is owned
/// by the system program and holds no data. It is refused where it has to
/// be writable and is not.
pub open spec fn spec_load_system_account(
    info: &Account,
    is_writable: bool,
    system_program: &Pubkey,
) -> Result<(), VaultError> {
    if info.owner != *system_program {
        Err(VaultError::OwnerMismatch)
    } else if info.data@.len() != 0 {
        Err(VaultError::AlreadyInitialized)
    } else if is_writable && !info.is_writable {
        Err(VaultError::NotWritable)
    } else {
        Ok(())
    }
}

#[verifier::when_used_as_spec(spec_load_system_account)]
pub fn load_system_account(info: &Account, is_writable: bool, system_program: &Pubkey) -> (r:
    Result<(), VaultError>)
    ensures
        r == spec_load_system_account(info, is_writable, system_program),
{
    if !pubkey_eq(&info.owner, system_program) {
        return Err(VaultError::OwnerMismatch);
    }
    if info.data.len() != 0 {
        return Err(VaultError::AlreadyInitialized);
    }
    if is_writable && !info.is_writable {
        return Err(VaultError::NotWritable);
    }
    Ok(())
}

} // verus!
