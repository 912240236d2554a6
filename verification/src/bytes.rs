//! Small byte-buffer helpers shared by the format codecs.
use vstd::prelude::*;

verus! {

/// Copies `N` bytes of `data`, starting at `start`, into a fixed-size array.
pub fn copy_array<const N: usize>(data: &[u8], start: usize) -> (res: [u8; N])
    requires
        start + N <= data@.len(),
    ensures
        res@ == data@.subrange(start as int, start + N),
{
    let mut out: [u8; N] = [0u8; N];
    let mut i: usize = 0;
    while i < N
        invariant
            i <= N,
            start + N <= data.len(),
            out@.len() == N,
            forall|k: int| 0 <= k < i ==> out@[k] == data@[start + k],
        decreases N - i,
    {
        out[i] = data[start + i];
        i += 1;
    }
    assert(out@ =~= data@.subrange(start as int, start + N));
    out
}

/// Appends every byte of `src` to `buf`, in order.
pub fn append_bytes(buf: &mut Vec<u8>, src: &[u8])
    ensures
        final(buf)@ == old(buf)@ + src@,
{
    let mut i: usize = 0;
    while i < src.len()
        invariant
            i <= src@.len(),
            buf@ == old(buf)@ + src@.subrange(0, i as int),
        decreases src@.len() - i,
    {
        buf.push(src[i]);
        i += 1;
        assert(src@.subrange(0, i as int) =~= src@.subrange(0, i - 1) + seq![src@[i - 1]]);
    }
    assert(src@.subrange(0, src@.len() as int) =~= src@);
}

} // verus!
