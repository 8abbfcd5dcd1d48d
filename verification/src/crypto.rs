use vstd::prelude::*;

use crate::errors::VaultError;
use aes_gcm::aead::Aead;
use aes_gcm::KeyInit;
use argon2::password_hash::PasswordHasher;

verus! {

/// Length in bytes of the master data-encryption key and of the derived
/// key-encryption key.
pub const KEY_LEN: usize = 32;

/// Length in bytes of the password salt stored in the key file.
pub const SALT_LEN: usize = 16;

/// Length in bytes of a GCM nonce.
pub const NONCE_LEN: usize = 12;

/// Length in bytes of the GCM authentication tag appended to a ciphertext.
pub const TAG_LEN: usize = 16;

/// Longest password the key-derivation function accepts.
pub const MAX_PASSWORD_LEN: u64 = 0xFFFF_FFFF;

/// Longest plaintext one sealing call accepts: the GCM single-message bound
/// of 2^36 bytes.
pub const MAX_PLAINTEXT_LEN: u64 = 0x10_0000_0000;

/// The 32-byte key that the password hash derives from a passphrase and a
/// 16-byte salt.
pub uninterp spec fn kek_of(password: Seq<u8>, salt: Seq<u8>) -> Seq<u8>;

/// The bytes that authenticated encryption produces from a key, a nonce and a
/// plaintext: the ciphertext followed by its 16-byte tag.
pub uninterp spec fn seal_of(key: Seq<u8>, nonce: Seq<u8>, plaintext: Seq<u8>) -> Seq<u8>;

/// Relies on argon2's `hash_password`: Argon2id v1.3 with memory cost 15000
/// KiB, 2 iterations, parallelism 1 and the default 32-byte output. The
/// digest depends on the password and the salt bytes alone. With these fixed
/// parameters and a 16-byte salt, the only input its validation rejects is a
/// password longer than 2^32 - 1 bytes.
#[verifier::external_body]
pub(crate) fn derive_kek(password: &[u8], salt: &[u8]) -> (r: Result<Vec<u8>, VaultError>)
    requires
        salt@.len() == SALT_LEN,
    ensures
        r matches Ok(k) ==> k@ == kek_of(password@, salt@) && k@.len() == KEY_LEN,
        r matches Err(e) ==> e == VaultError::KeyDerivation && password@.len()
            > MAX_PASSWORD_LEN,
{
    let params = argon2::Params::new(15000, 2, 1, None).map_err(|_| VaultError::KeyDerivation)?;
    let argon = argon2::Argon2::new(argon2::Algorithm::Argon2id, argon2::Version::V0x13, params);
    let salt_str = argon2::password_hash::SaltString::encode_b64(salt)
        .map_err(|_| VaultError::KeyDerivation)?;
    let hashed = argon.hash_password(password, &salt_str).map_err(|_| VaultError::KeyDerivation)?;
    let output = hashed.hash.ok_or(VaultError::KeyDerivation)?;
    Ok(output.as_bytes().to_vec())
}

/// Relies on aes_gcm's `Aes256Gcm` encrypt: AES-256-GCM, returning the
/// ciphertext with the 16-byte tag appended, a function of the key, the nonce
/// and the plaintext alone. It rejects only a plaintext above the 2^36-byte
/// single-message bound.
#[verifier::external_body]
pub(crate) fn aead_seal(key: &[u8], nonce: &[u8], plaintext: &[u8]) -> (r: Result<
    Vec<u8>,
    VaultError,
>)
    requires
        key@.len() == KEY_LEN,
        nonce@.len() == NONCE_LEN,
    ensures
        r matches Ok(c) ==> c@ == seal_of(key@, nonce@, plaintext@) && c@.len() == plaintext@.len()
            + TAG_LEN,
        r matches Err(e) ==> e == VaultError::Crypto && plaintext@.len() > MAX_PLAINTEXT_LEN,
{
    let cipher = aes_gcm::Aes256Gcm::new(aes_gcm::Key::<aes_gcm::Aes256Gcm>::from_slice(key));
    cipher.encrypt(aes_gcm::Nonce::from_slice(nonce), plaintext).map_err(|_| VaultError::Crypto)
}

/// Relies on aes_gcm's `Aes256Gcm` decrypt: verifies the trailing tag and
/// inverts encryption, so it returns exactly the plaintext whose sealing
/// under this key and nonce produced the ciphertext, and fails when no such
/// plaintext exists. The 128-bit authentication tag is treated as exact.
#[verifier::external_body]
pub(crate) fn aead_open(key: &[u8], nonce: &[u8], ciphertext: &[u8]) -> (r: Option<Vec<u8>>)
    requires
        key@.len() == KEY_LEN,
        nonce@.len() == NONCE_LEN,
    ensures
        r matches Some(p) ==> ciphertext@ == seal_of(key@, nonce@, p@),
        r matches Some(p) ==> forall|pt: Seq<u8>|
            ciphertext@ == seal_of(key@, nonce@, pt) ==> p@ == pt,
        r matches None ==> forall|pt: Seq<u8>| ciphertext@ != seal_of(key@, nonce@, pt),
{
    let cipher = aes_gcm::Aes256Gcm::new(aes_gcm::Key::<aes_gcm::Aes256Gcm>::from_slice(key));
    cipher.decrypt(aes_gcm::Nonce::from_slice(nonce), ciphertext).ok()
}

/// Relies on rand's thread-local generator `fill_bytes`: fills the buffer in
/// place from the OS-seeded CSPRNG. Nothing is promised of the drawn values.
#[verifier::external_body]
pub(crate) fn fill_random(buf: &mut Vec<u8>)
    ensures
        final(buf)@.len() == old(buf)@.len(),
{
    rand::RngCore::fill_bytes(&mut rand::rng(), buf.as_mut_slice());
}

/// Draws `n` bytes from the cryptographic random number generator.
pub fn random_bytes(n: usize) -> (r: Vec<u8>)
    ensures
        r@.len() == n,
{
    let mut buf: Vec<u8> = vec![0u8; n];
    fill_random(&mut buf);
    buf
}

} // verus!
