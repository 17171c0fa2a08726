//! File system paths, as the bytes they are on Unix.

use vstd::prelude::*;
use vstd::utf8::encode_utf8;
use crate::wire::push_bytes;

verus! {

/// An optional run of bytes as contracts speak of it.
pub open spec fn opt_bytes(bytes: Option<Vec<u8>>) -> Option<Seq<u8>> {
    match bytes {
        Some(b) => Some(b@),
        None => None,
    }
}

/// What separates the components of a path.
pub const SEPARATOR: u8 = 0x2f;

/// `base` with `name` joined on: a separator comes between the two unless
/// `base` is empty or ends in one, and a `name` that starts with one stands on
/// its own.
pub open spec fn path_joined(base: Seq<u8>, name: Seq<u8>) -> Seq<u8> {
    if base.len() == 0 || (name.len() > 0 && name[0] == SEPARATOR) {
        name
    } else if base.last() == SEPARATOR {
        base + name
    } else {
        base.push(SEPARATOR) + name
    }
}

/// `base` with the name `name` joined on.
pub open spec fn path_in(base: Seq<u8>, name: Seq<char>) -> Seq<u8> {
    path_joined(base, encode_utf8(name))
}

/// Joins `name` onto `base`.
pub fn join_path(base: &[u8], name: &str) -> (r: Vec<u8>)
    ensures
        r@ == path_in(base@, name@),
{
    let name_bytes = name.as_bytes();
    let mut out: Vec<u8> = Vec::new();
    if base.len() == 0 || (name_bytes.len() > 0 && name_bytes[0] == SEPARATOR) {
        push_bytes(&mut out, name_bytes);
        assert(out@ =~= name_bytes@);
    } else {
        push_bytes(&mut out, base);
        assert(out@ =~= base@);
        if base[base.len() - 1] != SEPARATOR {
            out.push(SEPARATOR);
        }
        push_bytes(&mut out, name_bytes);
    }
    out
}

/// A name without a separator at its start is plain.
pub(crate) proof fn lemma_plain_name(name: Seq<char>)
    requires
        name.len() > 0,
        name[0] as u32 != 0x2f,
        (name[0] as u32) < 0x80,
    ensures
        encode_utf8(name).len() > 0,
        encode_utf8(name)[0] != 0x2f,
{
    let c = name[0] as u32;
    assert(c < 0x80 ==> c & 0x7f == c) by (bit_vector);
}

/// A name goes into a directory behind a slash, of which there is never a second
/// one; into no directory it goes as it is, and a path from the root stays what
/// it is.
pub proof fn law_joining_paths(base: Seq<u8>, name: Seq<u8>)
    ensures
        name.len() > 0 && name[0] == 0x2f ==> path_joined(base, name) == name,
        base.len() == 0 ==> path_joined(base, name) == name,
        base.len() > 0 && base.last() == 0x2f && (name.len() == 0 || name[0] != 0x2f)
            ==> path_joined(base, name) == base + name,
        base.len() > 0 && base.last() != 0x2f && (name.len() == 0 || name[0] != 0x2f)
            ==> path_joined(base, name) == base + seq![0x2fu8] + name,
{
    assert(base.push(0x2f) + name =~= base + seq![0x2fu8] + name);
}

} // verus!
