use vstd::prelude::*;

use crate::crypto::{
    aead_open, aead_seal, derive_kek, kek_of, random_bytes, seal_of, KEY_LEN, MAX_PASSWORD_LEN,
    NONCE_LEN, SALT_LEN,
};
use crate::errors::VaultError;
use crate::keyfile::{
    decode_key_file, encode_key_file, lemma_key_file_fields, KEY_FILE_LEN, KEY_FILE_MIN_LEN,
};

verus! {

/// Holds exactly when `file` is a well-formed key file that wraps the 32-byte
/// master key `dek` under the passphrase `password`: the tail after offset 28
/// is the sealing of `dek` under the key derived from the passphrase and the
/// salt at offset 0, with the nonce at offset 16.
pub open spec fn wraps_dek(password: Seq<u8>, file: Seq<u8>, dek: Seq<u8>) -> bool {
    &&& file.len() >= KEY_FILE_MIN_LEN
    &&& dek.len() == KEY_LEN
    &&& file.skip(KEY_FILE_MIN_LEN as int) == seal_of(
        kek_of(password, file.take(SALT_LEN as int)),
        file.subrange(SALT_LEN as int, KEY_FILE_MIN_LEN as int),
        dek,
    )
}

/// What creating a vault yields: the key file to persist and the master key
/// to install in the vault state.
pub struct CreatedVault {
    pub key_file: Vec<u8>,
    pub dek: Vec<u8>,
}

/// Creates a fresh vault under `password`: draws a random master key, a
/// random salt and a random nonce, derives the key-encryption key, seals the
/// master key under it, and lays the fields out as a 76-byte key file. It
/// succeeds for every password the key-derivation function accepts.
pub fn create_vault(password: &[u8]) -> (r: Result<CreatedVault, VaultError>)
    ensures
        r matches Ok(c) ==> c.key_file@.len() == KEY_FILE_LEN && c.dek@.len() == KEY_LEN
            && wraps_dek(password@, c.key_file@, c.dek@),
        password@.len() <= MAX_PASSWORD_LEN ==> r is Ok,
        r matches Err(e) ==> e == VaultError::KeyDerivation || e == VaultError::Crypto,
{
    let dek = random_bytes(KEY_LEN);
    let salt = random_bytes(SALT_LEN);
    let kek = match derive_kek(password, salt.as_slice()) {
        Ok(k) => k,
        Err(e) => { return Err(e) },
    };
    let nonce = random_bytes(NONCE_LEN);
    let wrapped = match aead_seal(kek.as_slice(), nonce.as_slice(), dek.as_slice()) {
        Ok(w) => w,
        Err(e) => { return Err(e) },
    };
    let key_file = encode_key_file(&salt, &nonce, &wrapped);
    proof {
        lemma_key_file_fields(salt@, nonce@, wrapped@);
    }
    Ok(CreatedVault { key_file, dek })
}

/// Unlocks the key file under `password` and returns the master key it
/// wraps. Anything shorter than 28 bytes is rejected as invalid; an
/// authentication failure, or a wrapped key of the wrong length, means the
/// passphrase is wrong. The returned key is the only one the file wraps
/// under this passphrase, and whenever the file does wrap a key under an
/// acceptable password, unlocking succeeds.
pub fn unlock_vault(password: &[u8], key_file: &Vec<u8>) -> (r: Result<Vec<u8>, VaultError>)
    ensures
        r matches Ok(dek) ==> wraps_dek(password@, key_file@, dek@),
        r matches Ok(dek) ==> forall|d: Seq<u8>| wraps_dek(password@, key_file@, d) ==> d == dek@,
        password@.len() <= MAX_PASSWORD_LEN && (exists|d: Seq<u8>|
            wraps_dek(password@, key_file@, d)) ==> r is Ok,
        (r matches Err(e) && e == VaultError::InvalidFormat) <==> key_file@.len()
            < KEY_FILE_MIN_LEN,
        password@.len() <= MAX_PASSWORD_LEN && key_file@.len() >= KEY_FILE_MIN_LEN && !(exists|
            d: Seq<u8>| wraps_dek(password@, key_file@, d)) ==> r == Err::<Vec<u8>, VaultError>(
            VaultError::WrongPassword,
        ),
        r matches Err(e) ==> e == VaultError::InvalidFormat || e == VaultError::KeyDerivation || e
            == VaultError::WrongPassword,
        r matches Err(e) && e == VaultError::WrongPassword ==> !(exists|d: Seq<u8>|
            wraps_dek(password@, key_file@, d)),
{
    let parts = match decode_key_file(key_file) {
        Ok(p) => p,
        Err(e) => { return Err(e) },
    };
    let kek = match derive_kek(password, parts.salt.as_slice()) {
        Ok(k) => k,
        Err(e) => { return Err(e) },
    };
    match aead_open(kek.as_slice(), parts.nonce.as_slice(), parts.wrapped.as_slice()) {
        Some(dek) => {
            if dek.len() == KEY_LEN {
                proof {
                    assert(wraps_dek(password@, key_file@, dek@));
                }
                Ok(dek)
            } else {
                proof {
                    assert forall|d: Seq<u8>| !wraps_dek(password@, key_file@, d) by {
                        if wraps_dek(password@, key_file@, d) {
                            assert(parts.wrapped@ == seal_of(kek@, parts.nonce@, d));
                            assert(dek@ == d);
                        }
                    }
                }
                Err(VaultError::WrongPassword)
            }
        },
        None => {
            proof {
                assert forall|d: Seq<u8>| !wraps_dek(password@, key_file@, d) by {
                    if wraps_dek(password@, key_file@, d) {
                        assert(parts.wrapped@ == seal_of(kek@, parts.nonce@, d));
                    }
                }
            }
            Err(VaultError::WrongPassword)
        },
    }
}

/// Re-wraps the master key under a new passphrase: unlocks with the old one,
/// draws a fresh salt and nonce, and writes a new 76-byte key file. The
/// master key itself is unchanged, so every file encrypted before the change
/// stays readable: whatever key the old file wrapped under the old
/// passphrase, the new file wraps under the new one. Whenever the file wraps
/// a key under an acceptable old passphrase and the new one is acceptable
/// too, the change succeeds.
pub fn change_password(old_password: &[u8], new_password: &[u8], key_file: &Vec<u8>) -> (r: Result<
    Vec<u8>,
    VaultError,
>)
    ensures
        r matches Ok(f2) ==> f2@.len() == KEY_FILE_LEN && (exists|d: Seq<u8>|
            wraps_dek(old_password@, key_file@, d)) && (forall|d: Seq<u8>|
            wraps_dek(old_password@, key_file@, d) ==> wraps_dek(new_password@, f2@, d)),
        old_password@.len() <= MAX_PASSWORD_LEN && new_password@.len() <= MAX_PASSWORD_LEN && (
        exists|d: Seq<u8>| wraps_dek(old_password@, key_file@, d)) ==> r is Ok,
        (r matches Err(e) && e == VaultError::InvalidFormat) <==> key_file@.len()
            < KEY_FILE_MIN_LEN,
        old_password@.len() <= MAX_PASSWORD_LEN && key_file@.len() >= KEY_FILE_MIN_LEN && !(
        exists|d: Seq<u8>| wraps_dek(old_password@, key_file@, d)) ==> r == Err::<
            Vec<u8>,
            VaultError,
        >(VaultError::WrongPassword),
        r matches Err(e) ==> e == VaultError::InvalidFormat || e == VaultError::KeyDerivation || e
            == VaultError::WrongPassword || e == VaultError::Crypto,
        r matches Err(e) && e == VaultError::WrongPassword ==> !(exists|d: Seq<u8>|
            wraps_dek(old_password@, key_file@, d)),
{
    let dek = match unlock_vault(old_password, key_file) {
        Ok(d) => d,
        Err(e) => { return Err(e) },
    };
    let salt = random_bytes(SALT_LEN);
    let kek = match derive_kek(new_password, salt.as_slice()) {
        Ok(k) => k,
        Err(e) => { return Err(e) },
    };
    let nonce = random_bytes(NONCE_LEN);
    let wrapped = match aead_seal(kek.as_slice(), nonce.as_slice(), dek.as_slice()) {
        Ok(w) => w,
        Err(e) => { return Err(e) },
    };
    let f2 = encode_key_file(&salt, &nonce, &wrapped);
    proof {
        lemma_key_file_fields(salt@, nonce@, wrapped@);
        assert(wraps_dek(new_password@, f2@, dek@));
    }
    Ok(f2)
}

} // verus!
