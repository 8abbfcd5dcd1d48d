use vstd::prelude::*;

use crate::bytes::push_all;
use crate::errors::VaultError;
use vstd::slice::{slice_subrange, slice_to_vec};

verus! {

/// The path separator in the byte form of a path.
pub const SEPARATOR: u8 = 47;

/// The name suffix given to encrypted files: ".enc".
pub open spec fn enc_suffix() -> Seq<u8> {
    seq![46u8, 101u8, 110u8, 99u8]
}

/// The part of a path after its last separator; the whole path when it has
/// none.
pub open spec fn basename_of(p: Seq<u8>) -> Seq<u8>
    decreases p.len(),
{
    if p.len() == 0 {
        Seq::empty()
    } else if p.last() == SEPARATOR {
        Seq::empty()
    } else {
        basename_of(p.drop_last()).push(p.last())
    }
}

/// Whether a name ends in ".enc".
pub open spec fn has_enc_suffix(s: Seq<u8>) -> bool {
    s.len() >= 4 && s.skip(s.len() - 4) == enc_suffix()
}

/// Extracts the part of `path` after its last separator.
pub fn basename(path: &Vec<u8>) -> (r: Vec<u8>)
    ensures
        r@ == basename_of(path@),
{
    let mut start: usize = 0;
    let mut i: usize = 0;
    while i < path.len()
        invariant
            start <= i <= path@.len(),
            basename_of(path@.take(i as int)) == path@.subrange(start as int, i as int),
        decreases path@.len() - i,
    {
        proof {
            assert(path@.take(i + 1).drop_last() =~= path@.take(i as int));
            assert(path@.take(i + 1).last() == path@[i as int]);
        }
        if path[i] == SEPARATOR {
            start = i + 1;
        } else {
            proof {
                assert(path@.subrange(start as int, i as int).push(path@[i as int])
                    =~= path@.subrange(start as int, i + 1));
            }
        }
        i += 1;
    }
    proof {
        assert(path@.take(path@.len() as int) =~= path@);
    }
    slice_to_vec(slice_subrange(path.as_slice(), start, path.len()))
}

/// Tests whether `name` ends in ".enc".
fn check_enc_suffix(name: &Vec<u8>) -> (r: bool)
    ensures
        r == has_enc_suffix(name@),
{
    if name.len() < 4 {
        return false;
    }
    let n = name.len();
    let ok = name[n - 4] == 46 && name[n - 3] == 101 && name[n - 2] == 110 && name[n - 1] == 99;
    proof {
        if ok {
            assert(name@.skip(n - 4) =~= enc_suffix());
        } else if has_enc_suffix(name@) {
            assert(name@[n - 4] == enc_suffix()[0]);
            assert(name@[n - 3] == enc_suffix()[1]);
            assert(name@[n - 2] == enc_suffix()[2]);
            assert(name@[n - 1] == enc_suffix()[3]);
        }
    }
    ok
}

/// The destination of an encrypted file: `<dest_dir>/<basename(source)>.enc`.
pub fn encrypt_dest_name(dest_dir: &Vec<u8>, source: &Vec<u8>) -> (r: Vec<u8>)
    ensures
        r@ == dest_dir@ + seq![SEPARATOR] + basename_of(source@) + enc_suffix(),
{
    let base = basename(source);
    let mut out = slice_to_vec(dest_dir.as_slice());
    out.push(SEPARATOR);
    push_all(&mut out, base.as_slice());
    out.push(46);
    out.push(101);
    out.push(110);
    out.push(99);
    proof {
        assert(out@ =~= dest_dir@ + seq![SEPARATOR] + basename_of(source@) + enc_suffix());
    }
    out
}

/// The destination of a decrypted file: `<dest_dir>/<basename(source)>` with
/// the trailing ".enc" stripped. A source whose basename does not end in
/// ".enc" is rejected as invalid.
pub fn decrypt_dest_name(dest_dir: &Vec<u8>, source: &Vec<u8>) -> (r: Result<Vec<u8>, VaultError>)
    ensures
        r matches Ok(p) ==> has_enc_suffix(basename_of(source@)) && p@ == dest_dir@
            + seq![SEPARATOR] + basename_of(source@).take(basename_of(source@).len() - 4),
        r matches Err(e) ==> e == VaultError::InvalidFormat,
        r is Err <==> !has_enc_suffix(basename_of(source@)),
{
    let base = basename(source);
    if !check_enc_suffix(&base) {
        return Err(VaultError::InvalidFormat);
    }
    let stem = slice_subrange(base.as_slice(), 0, base.len() - 4);
    let mut out = slice_to_vec(dest_dir.as_slice());
    out.push(SEPARATOR);
    push_all(&mut out, stem);
    proof {
        assert(out@ =~= dest_dir@ + seq![SEPARATOR] + basename_of(source@).take(
            basename_of(source@).len() - 4,
        ));
    }
    Ok(out)
}

} // verus!
