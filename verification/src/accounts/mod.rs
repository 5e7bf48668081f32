//! The accounts that a request names, as the processors read them, and the
//! type tags of the records that this program keeps.

use crate::errors::VaultError;
use crate::pubkey::Pubkey;
use vstd::prelude::*;

pub mod vault;

verus! {

/// One account of a request: what the ledger says of it.
#[derive(Debug)]
pub struct Account {
    /// The address of the account.
    pub key: Pubkey,
    /// The program that owns the account.
    pub owner: Pubkey,
    /// Whether the holder of the address has signed the request.
    pub is_signer: bool,
    /// Whether the request may change the account.
    pub is_writable: bool,
    /// The balance that pays for the account's storage.
    pub lamports: u64,
    /// The data that the account holds.
    pub data: Vec<u8>,
}

impl Clone for Account {
    fn clone(&self) -> (r: Self)
        ensures
            r.key == self.key,
            r.owner == self.owner,
            r.is_signer == self.is_signer,
            r.is_writable == self.is_writable,
            r.lamports == self.lamports,
            r.data@ == self.data@,
    {
        Account {
            key: self.key,
            owner: self.owner,
            is_signer: self.is_signer,
            is_writable: self.is_writable,
            lamports: self.lamports,
            data: self.data.clone(),
        }
    }
}

/// The type tags of the records of this program. No tag is 0: storage is
/// zero-filled when it is allocated, so a zero byte marks nothing.
#[derive(Clone, Copy, Debug, PartialEq, Eq, Structural)]
pub enum VaultProgramDiscriminator {
    Vault,
}

impl VaultProgramDiscriminator {
    /// The tag byte of the record type.
    pub open spec fn spec_tag(&self) -> u8 {
        1
    }

    #[verifier::when_used_as_spec(spec_tag)]
    pub fn tag(&self) -> (r: u8)
        ensures
            r == self.spec_tag(),
            r != 0,
    {
        1
    }

    /// The record type that a tag byte marks.
    pub fn from_u8(value: u8) -> (r: Result<Self, VaultError>)
        ensures
            value == 1 ==> r == Ok::<Self, VaultError>(VaultProgramDiscriminator::Vault),
            value != 1 ==> r == Err::<Self, VaultError>(VaultError::InvalidDiscriminator),
    {
        match value {
            1 => Ok(VaultProgramDiscriminator::Vault),
            _ => Err(VaultError::InvalidDiscriminator),
        }
    }
}

} // verus!
