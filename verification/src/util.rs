//! Byte-string helpers.

use vstd::prelude::*;

verus! {

/// Appends `src` to `dst`.
pub fn append_bytes(dst: &mut Vec<u8>, src: &[u8])
    ensures
        final(dst)@ == old(dst)@ + src@,
{
    let mut i: usize = 0;
    while i < src.len()
        invariant
            i <= src@.len(),
            dst@ == old(dst)@ + src@.take(i as int),
        decreases src@.len() - i,
    {
        dst.push(src[i]);
        assert(src@.take(i + 1) =~= src@.take(i as int).push(src@[i as int]));
        i = i + 1;
    }
    assert(src@.take(src@.len() as int) =~= src@);
}

/// A fresh vector holding the bytes of `src`.
pub fn copy_bytes(src: &[u8]) -> (res: Vec<u8>)
    ensures
        res@ == src@,
{
    let mut res = Vec::new();
    append_bytes(&mut res, src);
    assert(res@ =~= src@);
    res
}

} // verus!
