//! The one byte-level operation every role shares: taking the first `size`
//! bytes of a reusable receive buffer, exactly the bytes one socket read or
//! one datagram delivered.

use vstd::prelude::*;

verus! {

/// The bytes that one receive of `size` bytes into `buf` delivered: the
/// prefix of `buf` of length `size`.
pub open spec fn received_bytes(buf: Seq<u8>, size: int) -> Seq<u8> {
    buf.subrange(0, size)
}

/// Copy the first `size` bytes of `buf` into a fresh buffer.
pub fn copy_prefix(buf: &Vec<u8>, size: usize) -> (out: Vec<u8>)
    requires
        size <= buf.len(),
    ensures
        out@ == received_bytes(buf@, size as int),
{
    let mut out: Vec<u8> = Vec::new();
    let mut i: usize = 0;
    while i < size
        invariant
            i <= size,
            size <= buf.len(),
            out@ =~= buf@.subrange(0, i as int),
        decreases size - i,
    {
        out.push(buf[i]);
        i = i + 1;
    }
    assert(out@ =~= buf@.subrange(0, size as int));
    out
}

} // verus!
