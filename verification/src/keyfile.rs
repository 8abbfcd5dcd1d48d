use vstd::prelude::*;

use crate::bytes::push_all;
use crate::crypto::{NONCE_LEN, SALT_LEN};
use crate::errors::VaultError;
use vstd::slice::{slice_subrange, slice_to_vec};

verus! {

/// Total length of a key file: a 16-byte salt, a 12-byte nonce and the
/// 48-byte wrapped master key (32 bytes of key plus the 16-byte tag).
pub const KEY_FILE_LEN: usize = 76;

/// The shortest key file that can be split into its three fields.
pub const KEY_FILE_MIN_LEN: usize = 28;

/// The fields of a key file, in their on-disk order.
pub struct KeyFileParts {
    pub salt: Vec<u8>,
    pub nonce: Vec<u8>,
    pub wrapped: Vec<u8>,
}

/// Concatenates the three fields in the fixed on-disk layout.
pub fn encode_key_file(salt: &Vec<u8>, nonce: &Vec<u8>, wrapped: &Vec<u8>) -> (r: Vec<u8>)
    requires
        salt@.len() == SALT_LEN,
        nonce@.len() == NONCE_LEN,
    ensures
        r@ == salt@ + nonce@ + wrapped@,
        r@.len() == KEY_FILE_MIN_LEN + wrapped@.len(),
{
    let mut out: Vec<u8> = Vec::new();
    push_all(&mut out, salt.as_slice());
    push_all(&mut out, nonce.as_slice());
    push_all(&mut out, wrapped.as_slice());
    proof {
        assert(out@ =~= salt@ + nonce@ + wrapped@);
    }
    out
}

/// Splits a key file at offsets 16 and 28. The remainder is the wrapped key;
/// its length is not checked here, a short tail surfaces later as an
/// authentication failure. Anything shorter than 28 bytes is invalid.
pub fn decode_key_file(data: &Vec<u8>) -> (r: Result<KeyFileParts, VaultError>)
    ensures
        r matches Ok(p) ==> data@.len() >= KEY_FILE_MIN_LEN && p.salt@ == data@.take(
            SALT_LEN as int,
        ) && p.nonce@ == data@.subrange(SALT_LEN as int, KEY_FILE_MIN_LEN as int) && p.wrapped@
            == data@.skip(KEY_FILE_MIN_LEN as int),
        r matches Err(e) ==> e == VaultError::InvalidFormat && data@.len() < KEY_FILE_MIN_LEN,
        data@.len() < KEY_FILE_MIN_LEN ==> r is Err,
{
    if data.len() < KEY_FILE_MIN_LEN {
        return Err(VaultError::InvalidFormat);
    }
    let salt = slice_to_vec(slice_subrange(data.as_slice(), 0, SALT_LEN));
    let nonce = slice_to_vec(slice_subrange(data.as_slice(), SALT_LEN, KEY_FILE_MIN_LEN));
    let wrapped = slice_to_vec(slice_subrange(data.as_slice(), KEY_FILE_MIN_LEN, data.len()));
    proof {
        assert(data@.subrange(0, SALT_LEN as int) =~= data@.take(SALT_LEN as int));
        assert(data@.subrange(KEY_FILE_MIN_LEN as int, data@.len() as int) =~= data@.skip(
            KEY_FILE_MIN_LEN as int,
        ));
    }
    Ok(KeyFileParts { salt, nonce, wrapped })
}

/// Decoding recovers exactly the fields that encoding wrote.
pub proof fn lemma_key_file_fields(salt: Seq<u8>, nonce: Seq<u8>, wrapped: Seq<u8>)
    requires
        salt.len() == SALT_LEN,
        nonce.len() == NONCE_LEN,
    ensures
        (salt + nonce + wrapped).take(SALT_LEN as int) == salt,
        (salt + nonce + wrapped).subrange(SALT_LEN as int, KEY_FILE_MIN_LEN as int) == nonce,
        (salt + nonce + wrapped).skip(KEY_FILE_MIN_LEN as int) == wrapped,
{
    assert((salt + nonce + wrapped).take(SALT_LEN as int) =~= salt);
    assert((salt + nonce + wrapped).subrange(SALT_LEN as int, KEY_FILE_MIN_LEN as int) =~= nonce);
    assert((salt + nonce + wrapped).skip(KEY_FILE_MIN_LEN as int) =~= wrapped);
}

} // verus!
