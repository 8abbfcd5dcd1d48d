use vstd::prelude::*;

use crate::crypto::NONCE_LEN;
use crate::files::{opens_to, sealed_file};
use crate::vault::wraps_dek;

verus! {

/// Round-trip: for any master key, nonce and plaintext, the encrypted user
/// file built from them opens back to that plaintext. Together with the
/// contract of decryption, decrypting what encryption produced returns
/// exactly the original contents.
pub proof fn lemma_round_trip(dek: Seq<u8>, nonce: Seq<u8>, plaintext: Seq<u8>)
    requires
        nonce.len() == NONCE_LEN,
    ensures
        opens_to(dek, sealed_file(dek, nonce, plaintext), plaintext),
{
    let file = sealed_file(dek, nonce, plaintext);
    assert(file.take(NONCE_LEN as int) =~= nonce);
    assert(file.skip(NONCE_LEN as int) =~= crate::crypto::seal_of(dek, nonce, plaintext));
}

/// Passphrase rotation preserves data: when a passphrase change turns a key
/// file that wraps the master key `dek` under the old passphrase into one
/// that wraps the same key under the new passphrase — which is what the
/// contract of the change guarantees — the rotated vault still holds `dek`,
/// and every file encrypted under `dek` before the change opens to its
/// original plaintext after it.
pub proof fn lemma_rotation_preserves_data(
    old_password: Seq<u8>,
    new_password: Seq<u8>,
    old_file: Seq<u8>,
    new_file: Seq<u8>,
    dek: Seq<u8>,
    nonce: Seq<u8>,
    plaintext: Seq<u8>,
)
    requires
        wraps_dek(old_password, old_file, dek),
        forall|d: Seq<u8>| wraps_dek(old_password, old_file, d) ==> wraps_dek(
            new_password,
            new_file,
            d,
        ),
        nonce.len() == NONCE_LEN,
    ensures
        wraps_dek(new_password, new_file, dek),
        opens_to(dek, sealed_file(dek, nonce, plaintext), plaintext),
{
    lemma_round_trip(dek, nonce, plaintext);
}

} // verus!
