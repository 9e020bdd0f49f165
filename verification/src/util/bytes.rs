//! Byte buffers: their contents, and copies of ranges of slices.
use vstd::prelude::*;
use vstd::slice::slice_to_vec;

verus! {

/// The byte contents of a sequence of owned buffers.
pub open spec fn views(v: Seq<Vec<u8>>) -> Seq<Seq<u8>> {
    v.map_values(|m: Vec<u8>| m@)
}

/// Copies `data[start..end]`.
pub fn copy_range(data: &[u8], start: usize, end: usize) -> (out: Vec<u8>)
    requires
        start <= end <= data@.len(),
    ensures
        out@ == data@.subrange(start as int, end as int),
{
    slice_to_vec(&data[start..end])
}

/// Appends `data[start..end]` to `buffer`.
pub fn append_range(buffer: &mut Vec<u8>, data: &[u8], start: usize, end: usize)
    requires
        start <= end <= data@.len(),
    ensures
        final(buffer)@ == old(buffer)@ + data@.subrange(start as int, end as int),
{
    let mut i = start;
    while i < end
        invariant
            start <= i <= end <= data@.len(),
            buffer@ == old(buffer)@ + data@.subrange(start as int, i as int),
        decreases end - i,
    {
        buffer.push(data[i]);
        i += 1;
        assert(buffer@ =~= old(buffer)@ + data@.subrange(start as int, i as int));
    }
}

} // verus!
