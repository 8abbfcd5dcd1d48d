use vstd::prelude::*;

use crate::crypto::{KEY_LEN, MAX_PASSWORD_LEN};
use crate::errors::VaultError;
use crate::keyfile::KEY_FILE_MIN_LEN;
use crate::vault::{unlock_vault, wraps_dek};
use vstd::slice::slice_to_vec;

verus! {

/// Process-wide holder of the master key of the currently unlocked vault.
/// Batches take a cloned snapshot of the key for their whole run, so a
/// concurrent passphrase change never invalidates an in-flight batch.
pub struct Vault {
    key: Option<Vec<u8>>,
}

impl Vault {
    /// The master key currently resident, if any.
    pub closed spec fn dek(self) -> Option<Seq<u8>> {
        match self.key {
            Some(k) => Some(k@),
            None => None,
        }
    }

    /// A resident master key is always 32 bytes.
    pub closed spec fn wf(self) -> bool {
        self.key matches Some(k) ==> k@.len() == KEY_LEN
    }

    /// A vault starts locked: no master key resident.
    pub fn new() -> (v: Vault)
        ensures
            v.wf(),
            v.dek() is None,
    {
        Vault { key: None }
    }

    /// Installs a master key, replacing any resident one.
    pub fn set(&mut self, dek: Vec<u8>)
        requires
            dek@.len() == KEY_LEN,
        ensures
            final(self).wf(),
            final(self).dek() == Some(dek@),
    {
        self.key = Some(dek);
    }

    /// Clones the resident master key, so callers never hold the vault
    /// across I/O or cipher work.
    pub fn snapshot(&self) -> (r: Option<Vec<u8>>)
        requires
            self.wf(),
        ensures
            r matches Some(k) ==> self.dek() == Some(k@) && k@.len() == KEY_LEN,
            r is None <==> self.dek() is None,
    {
        match &self.key {
            Some(k) => Some(slice_to_vec(k.as_slice())),
            None => None,
        }
    }

    /// Unlocks this vault from a key file: on success the key the file wraps
    /// becomes resident; on any failure the vault is left exactly as it was.
    /// Whenever the file wraps a key under an acceptable password, unlocking
    /// succeeds and installs exactly that key.
    pub fn unlock(&mut self, password: &[u8], key_file: &Vec<u8>) -> (r: Result<(), VaultError>)
        requires
            old(self).wf(),
        ensures
            final(self).wf(),
            r is Ok ==> (final(self).dek() matches Some(d) && wraps_dek(password@, key_file@, d)),
            r is Ok ==> forall|d: Seq<u8>|
                wraps_dek(password@, key_file@, d) ==> final(self).dek() == Some(d),
            password@.len() <= MAX_PASSWORD_LEN && (exists|d: Seq<u8>|
                wraps_dek(password@, key_file@, d)) ==> r is Ok,
            r is Err ==> *final(self) == *old(self),
            (r matches Err(e) && e == VaultError::InvalidFormat) <==> key_file@.len()
                < KEY_FILE_MIN_LEN,
            password@.len() <= MAX_PASSWORD_LEN && key_file@.len() >= KEY_FILE_MIN_LEN && !(
            exists|d: Seq<u8>| wraps_dek(password@, key_file@, d)) ==> r == Err::<
                (),
                VaultError,
            >(VaultError::WrongPassword),
            r matches Err(e) ==> e == VaultError::InvalidFormat || e == VaultError::KeyDerivation
                || e == VaultError::WrongPassword,
            r matches Err(e) && e == VaultError::WrongPassword ==> !(exists|d: Seq<u8>|
                wraps_dek(password@, key_file@, d)),
    {
        match unlock_vault(password, key_file) {
            Ok(dek) => {
                self.set(dek);
                Ok(())
            },
            Err(e) => Err(e),
        }
    }
}

/// Shared cancellation flag observed by in-flight batch operations. Each
/// batch resets it at entry and polls it between files, and between chunks
/// within a secure-delete pass.
pub struct OperationState {
    is_cancelled: bool,
}

impl OperationState {
    /// Whether a cancellation has been requested.
    pub closed spec fn cancelled(self) -> bool {
        self.is_cancelled
    }

    pub fn new() -> (s: OperationState)
        ensures
            !s.cancelled(),
    {
        OperationState { is_cancelled: false }
    }

    /// Requests that the operation in flight stop at its next check.
    pub fn request_cancel(&mut self)
        ensures
            final(self).cancelled(),
    {
        self.is_cancelled = true;
    }

    /// Clears the flag; every batch does this at entry.
    pub fn reset(&mut self)
        ensures
            !final(self).cancelled(),
    {
        self.is_cancelled = false;
    }

    pub fn is_cancelled(&self) -> (r: bool)
        ensures
            r == self.cancelled(),
    {
        self.is_cancelled
    }
}

} // verus!
