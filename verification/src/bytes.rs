//! Moving bytes between buffers.

use vstd::prelude::*;

verus! {

/// `buffer` with the bytes from `at` on replaced by `bytes`.
pub open spec fn overwritten(buffer: Seq<u8>, at: int, bytes: Seq<u8>) -> Seq<u8>
    recommends
        0 <= at,
        at + bytes.len() <= buffer.len(),
{
    buffer.take(at) + bytes + buffer.skip(at + bytes.len())
}

/// Copies `count` bytes of `source`, from `from` on, into `dest`, from `at` on.
pub fn copy(dest: &mut [u8], at: usize, source: &[u8], from: usize, count: usize)
    requires
        at + count <= old(dest)@.len(),
        from + count <= source@.len(),
    ensures
        final(dest)@ == overwritten(old(dest)@, at as int, source@.subrange(from as int, from + count)),
{
    let ghost before = dest@;
    let dest_len: usize = dest.len();
    let source_len: usize = source.len();
    let mut i: usize = 0;
    while i < count
        invariant
            i <= count,
            at + count <= dest_len == dest@.len(),
            from + count <= source_len == source@.len(),
            dest@.len() == before.len(),
            forall|k: int|
                0 <= k < dest@.len() ==> #[trigger] dest@[k] == (if at <= k < at + i {
                    source@[from + (k - at)]
                } else {
                    before[k]
                }),
        decreases count - i,
    {
        dest[at + i] = source[from + i];
        i = i + 1;
    }
    assert(dest@ =~= overwritten(before, at as int, source@.subrange(from as int, from + count)));
}

/// What was written over a buffer can be read back from the same place, and the rest is untouched.
pub proof fn overwritten_reads_back(buffer: Seq<u8>, at: int, bytes: Seq<u8>)
    requires
        0 <= at,
        at + bytes.len() <= buffer.len(),
    ensures
        overwritten(buffer, at, bytes).len() == buffer.len(),
        overwritten(buffer, at, bytes).subrange(at, at + bytes.len()) == bytes,
        overwritten(buffer, at, bytes).take(at) == buffer.take(at),
        overwritten(buffer, at, bytes).skip(at + bytes.len()) == buffer.skip(at + bytes.len()),
{
}

/// Writing one run of bytes right behind another is writing both in one go.
pub proof fn overwriting_in_pieces(buffer: Seq<u8>, at: int, first: Seq<u8>, second: Seq<u8>)
    requires
        0 <= at,
        at + first.len() + second.len() <= buffer.len(),
    ensures
        overwritten(overwritten(buffer, at, first), at + first.len(), second) == overwritten(
            buffer,
            at,
            first + second,
        ),
{
}

} // verus!
