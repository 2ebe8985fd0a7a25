//! File-system paths as the bytes the operating system takes them in.

use vstd::prelude::*;
use vstd::string::*;

verus! {

/// The byte that separates the components of a path.
pub const SEPARATOR: u8 = 0x2f;

/// A path that starts at the root.
pub open spec fn is_absolute(path: Seq<u8>) -> bool {
    path.len() > 0 && path[0] == SEPARATOR
}

/// `rest` looked up from `base`: `rest` itself where it starts at the root, else `base`
/// followed by `rest`, with a separator between them unless `base` is empty or ends
/// in one.
pub open spec fn joined(base: Seq<u8>, rest: Seq<u8>) -> Seq<u8> {
    if is_absolute(rest) {
        rest
    } else if base.len() > 0 && base.last() != SEPARATOR {
        base.push(SEPARATOR) + rest
    } else {
        base + rest
    }
}

/// The bytes of a text that holds ASCII characters only.
pub open spec fn ascii(text: Seq<char>) -> Seq<u8> {
    Seq::new(text.len(), |i: int| text[i] as u8)
}

/// Whether `path` starts at the root.
pub fn starts_at_root(path: &[u8]) -> (absolute: bool)
    ensures
        absolute == is_absolute(path@),
{
    path.len() > 0 && path[0] == SEPARATOR
}

/// Appends `bytes` to `out`.
pub fn push_all(out: &mut Vec<u8>, bytes: &[u8])
    ensures
        final(out)@ == old(out)@ + bytes@,
{
    let mut i: usize = 0;
    while i < bytes.len()
        invariant
            i <= bytes@.len(),
            out@ == old(out)@ + bytes@.subrange(0, i as int),
        decreases bytes@.len() - i,
    {
        out.push(bytes[i]);
        i = i + 1;
        assert(out@ =~= old(out)@ + bytes@.subrange(0, i as int));
    }
    assert(bytes@.subrange(0, i as int) =~= bytes@);
}

/// `rest` looked up from `base`.
pub fn join(base: &[u8], rest: &[u8]) -> (path: Vec<u8>)
    ensures
        path@ == joined(base@, rest@),
{
    let mut path: Vec<u8> = Vec::new();
    if !starts_at_root(rest) {
        push_all(&mut path, base);
        if base.len() > 0 && base[base.len() - 1] != SEPARATOR {
            path.push(SEPARATOR);
        }
    }
    push_all(&mut path, rest);
    assert(path@ =~= joined(base@, rest@));
    path
}

/// The bytes of `text`: one for each character where it holds ASCII characters only.
pub fn ascii_bytes(text: &str) -> (bytes: &[u8])
    ensures
        bytes@ == text.spec_bytes(),
        is_ascii(text) ==> bytes@ == ascii(text@),
{
    broadcast use is_ascii_spec_bytes;

    let bytes = text.as_bytes();
    assert(is_ascii(text) ==> bytes@ =~= ascii(text@));
    bytes
}

} // verus!
