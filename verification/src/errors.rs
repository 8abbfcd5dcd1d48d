use vstd::prelude::*;

verus! {

/// Failure taxonomy of the vault core.
///
/// Lifecycle operations return these to the caller; batch operations turn a
/// per-file error into an error event and stop iterating.
#[derive(Clone, Copy, PartialEq, Eq, Structural, Debug)]
pub enum VaultError {
    /// A read, write, metadata or delete failed at the filesystem layer.
    Io,
    /// Key file too short, encrypted file too short, or a missing name suffix.
    InvalidFormat,
    /// The wrapped master key did not authenticate under the given passphrase.
    WrongPassword,
    /// An encrypted user file did not authenticate under the master key.
    CorruptOrTampered,
    /// A batch needed the master key while no vault is unlocked.
    Locked,
    /// The password hash could not be computed.
    KeyDerivation,
    /// The cipher failed internally.
    Crypto,
    /// A secure delete was stopped between chunks.
    Cancelled,
}

impl VaultError {
    /// The human-readable message shown to the interface for this error.
    pub open spec fn message_spec(self) -> Seq<char> {
        match self {
            VaultError::Io => "File operation failed"@,
            VaultError::InvalidFormat => "Invalid file format"@,
            VaultError::WrongPassword => "Unlock failed. Check password."@,
            VaultError::CorruptOrTampered => "Decryption failed. File may be corrupt."@,
            VaultError::Locked => "Vault is locked"@,
            VaultError::KeyDerivation => "Key derivation failed"@,
            VaultError::Crypto => "Encryption failed"@,
            VaultError::Cancelled => "Operation cancelled."@,
        }
    }

    pub fn message(&self) -> (r: &'static str)
        ensures
            r@ == self.message_spec(),
    {
        match self {
            VaultError::Io => "File operation failed",
            VaultError::InvalidFormat => "Invalid file format",
            VaultError::WrongPassword => "Unlock failed. Check password.",
            VaultError::CorruptOrTampered => "Decryption failed. File may be corrupt.",
            VaultError::Locked => "Vault is locked",
            VaultError::KeyDerivation => "Key derivation failed",
            VaultError::Crypto => "Encryption failed",
            VaultError::Cancelled => "Operation cancelled.",
        }
    }
}

} // verus!
