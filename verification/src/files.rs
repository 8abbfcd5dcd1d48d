use vstd::prelude::*;

use crate::bytes::push_all;
use crate::crypto::{
    aead_open, aead_seal, random_bytes, seal_of, KEY_LEN, MAX_PLAINTEXT_LEN, NONCE_LEN, TAG_LEN,
};
use crate::errors::VaultError;
use vstd::slice::slice_subrange;

verus! {

/// The on-disk form of an encrypted user file: the 12-byte nonce followed by
/// the sealing of the plaintext under the master key with that nonce.
pub open spec fn sealed_file(dek: Seq<u8>, nonce: Seq<u8>, plaintext: Seq<u8>) -> Seq<u8> {
    nonce + seal_of(dek, nonce, plaintext)
}

/// Holds exactly when `data` is an encrypted user file whose ciphertext
/// opens to `plaintext` under the master key `dek`: the bytes after the
/// leading 12-byte nonce are the sealing of `plaintext` with that nonce.
pub open spec fn opens_to(dek: Seq<u8>, data: Seq<u8>, plaintext: Seq<u8>) -> bool {
    &&& data.len() >= NONCE_LEN
    &&& data.skip(NONCE_LEN as int) == seal_of(dek, data.take(NONCE_LEN as int), plaintext)
}

/// Encrypts one file's contents under the master key: draws a fresh random
/// nonce and writes `nonce || ciphertext`. The output opens back to exactly
/// the plaintext that went in, and every plaintext within the cipher's
/// single-message bound is accepted.
pub fn encrypt_file_data(dek: &Vec<u8>, plaintext: &Vec<u8>) -> (r: Result<Vec<u8>, VaultError>)
    requires
        dek@.len() == KEY_LEN,
    ensures
        r matches Ok(out) ==> out@.len() == plaintext@.len() + NONCE_LEN + TAG_LEN && opens_to(
            dek@,
            out@,
            plaintext@,
        ),
        plaintext@.len() <= MAX_PLAINTEXT_LEN ==> r is Ok,
        r matches Err(e) ==> e == VaultError::Crypto,
{
    let nonce = random_bytes(NONCE_LEN);
    let sealed = match aead_seal(dek.as_slice(), nonce.as_slice(), plaintext.as_slice()) {
        Ok(s) => s,
        Err(e) => { return Err(e) },
    };
    let ghost nonce_view = nonce@;
    let mut out = nonce;
    push_all(&mut out, sealed.as_slice());
    proof {
        assert(out@.take(NONCE_LEN as int) =~= nonce_view);
        assert(out@.skip(NONCE_LEN as int) =~= sealed@);
    }
    Ok(out)
}

/// Decrypts one encrypted file under the master key. Anything shorter than
/// the 12-byte nonce is invalid; a ciphertext that authenticates opens to
/// the unique plaintext it was sealed from, and one that does not is
/// reported as corrupt or tampered with.
pub fn decrypt_file_data(dek: &Vec<u8>, data: &Vec<u8>) -> (r: Result<Vec<u8>, VaultError>)
    requires
        dek@.len() == KEY_LEN,
    ensures
        (r matches Err(e) && e == VaultError::InvalidFormat) <==> data@.len() < NONCE_LEN,
        r matches Ok(p) ==> opens_to(dek@, data@, p@),
        r matches Ok(p) ==> forall|pt: Seq<u8>| opens_to(dek@, data@, pt) ==> pt == p@,
        (r matches Err(e) && e == VaultError::CorruptOrTampered) <==> (data@.len() >= NONCE_LEN
            && !(exists|pt: Seq<u8>| opens_to(dek@, data@, pt))),
        r matches Err(e) ==> e == VaultError::InvalidFormat || e == VaultError::CorruptOrTampered,
{
    if data.len() < NONCE_LEN {
        return Err(VaultError::InvalidFormat);
    }
    let nonce = slice_subrange(data.as_slice(), 0, NONCE_LEN);
    let ciphertext = slice_subrange(data.as_slice(), NONCE_LEN, data.len());
    proof {
        assert(nonce@ =~= data@.take(NONCE_LEN as int));
        assert(ciphertext@ =~= data@.skip(NONCE_LEN as int));
    }
    match aead_open(dek.as_slice(), nonce, ciphertext) {
        Some(p) => {
            proof {
                assert(opens_to(dek@, data@, p@));
            }
            Ok(p)
        },
        None => {
            proof {
                assert forall|pt: Seq<u8>| !opens_to(dek@, data@, pt) by {
                    if opens_to(dek@, data@, pt) {
                        assert(ciphertext@ == seal_of(dek@, nonce@, pt));
                    }
                }
            }
            Err(VaultError::CorruptOrTampered)
        },
    }
}

} // verus!
