//! The write schedule of the two-pass overwrite that precedes deleting a
//! plaintext file. The file operations themselves belong to the caller, which
//! asks `next_overwrite_len` before each write.
use vstd::prelude::*;

verus! {

/// Size of the buffer each overwrite pass writes from.
pub const OVERWRITE_BUFFER_LEN: usize = 65536;

/// The lengths of the successive writes of one pass over a file of
/// `file_size` bytes, starting at offset `written`, from a buffer of
/// `buffer_len` bytes.
pub open spec fn pass_writes(file_size: nat, written: nat, buffer_len: nat) -> Seq<nat>
    decreases file_size - written,
    when buffer_len > 0
{
    if written >= file_size {
        Seq::empty()
    } else {
        let remaining = (file_size - written) as nat;
        let n = if buffer_len < remaining { buffer_len } else { remaining };
        seq![n] + pass_writes(file_size, written + n, buffer_len)
    }
}

pub open spec fn total(s: Seq<nat>) -> nat
    decreases s.len(),
{
    if s.len() == 0 {
        0
    } else {
        s[0] + total(s.drop_first())
    }
}

/// How many bytes the next write of an overwrite pass covers: the whole
/// buffer, or what is left of the file; `None` once the pass has reached the
/// end of the file.
pub fn next_overwrite_len(file_size: u64, written: u64, buffer_len: usize) -> (r: Option<usize>)
    requires
        buffer_len > 0,
    ensures
        written >= file_size <==> r is None,
        r matches Some(n) ==> {
            &&& n > 0
            &&& n == pass_writes(file_size as nat, written as nat, buffer_len as nat)[0]
            &&& written + n <= file_size
            &&& n <= buffer_len
            &&& (n == buffer_len || written + n == file_size)
        },
{
    if written >= file_size {
        None
    } else {
        let remaining: u64 = file_size - written;
        if (buffer_len as u64) < remaining {
            Some(buffer_len)
        } else {
            Some(remaining as usize)
        }
    }
}

/// Every pass writes the file exactly once over: its writes, each no larger
/// than the buffer, add up to the bytes that were left.
pub proof fn lemma_pass_covers_file(file_size: nat, written: nat, buffer_len: nat)
    requires
        buffer_len > 0,
        written <= file_size,
    ensures
        total(pass_writes(file_size, written, buffer_len)) == file_size - written,
        forall|i: int|
            0 <= i < pass_writes(file_size, written, buffer_len).len() ==> 0 < #[trigger] pass_writes(
                file_size,
                written,
                buffer_len,
            )[i] <= buffer_len,
    decreases file_size - written,
{
    let s = pass_writes(file_size, written, buffer_len);
    if written < file_size {
        let remaining = (file_size - written) as nat;
        let n = if buffer_len < remaining { buffer_len } else { remaining };
        lemma_pass_covers_file(file_size, written + n, buffer_len);
        let rest = pass_writes(file_size, written + n, buffer_len);
        assert(s.drop_first() =~= rest);
        assert forall|i: int| 0 <= i < s.len() implies 0 < #[trigger] s[i] <= buffer_len by {
            if i > 0 {
                assert(s[i] == rest[i - 1]);
            }
        }
    }
}

} // verus!
