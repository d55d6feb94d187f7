//! The destination-buffer contract: a caller-supplied destination is modelled
//! as a byte vector of the supplied length plus a flag recording whether the
//! caller's address was null. A destination is accepted only when the flag is
//! clear and the length reaches the family's minimum; writing then touches the
//! first bytes of the buffer and nothing else.

use vstd::prelude::*;

verus! {

/// A destination is usable when its address is non-null and the supplied
/// length reaches the minimum the value family demands.
pub open spec fn buffer_ok(buf_null: bool, buf_len: nat, min: nat) -> bool {
    !buf_null && buf_len >= min
}

/// The sole validity test every entry point performs before any write.
pub fn buffer_accepts(buf_null: bool, buf_len: usize, min: usize) -> (ok: bool)
    ensures
        ok == buffer_ok(buf_null, buf_len as nat, min as nat),
{
    !buf_null && buf_len >= min
}

/// Copies `src` over the front of `dst`, leaving the rest of `dst` as it was.
pub fn write_prefix(src: &Vec<u8>, dst: &mut Vec<u8>)
    requires
        src@.len() <= old(dst)@.len(),
    ensures
        final(dst)@.len() == old(dst)@.len(),
        final(dst)@.subrange(0, src@.len() as int) == src@,
        final(dst)@.skip(src@.len() as int) == old(dst)@.skip(src@.len() as int),
{
    let mut i: usize = 0;
    while i < src.len()
        invariant
            i <= src@.len(),
            src@.len() <= dst@.len(),
            dst@.len() == old(dst)@.len(),
            forall|j: int| 0 <= j < i ==> dst@[j] == src@[j],
            forall|j: int| i <= j < dst@.len() ==> dst@[j] == old(dst)@[j],
        decreases src@.len() - i,
    {
        let b = src[i];
        dst.set(i, b);
        i += 1;
    }
    proof {
        assert(dst@.subrange(0, src@.len() as int) =~= src@);
        assert(dst@.skip(src@.len() as int) =~= old(dst)@.skip(src@.len() as int));
    }
}

} // verus!
