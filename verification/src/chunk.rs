use vstd::prelude::*;

verus! {

/// The bytes obtained by concatenating every chunk in order.
pub open spec fn concat_of(chunks: Seq<Vec<u8>>) -> Seq<u8>
    decreases chunks.len(),
{
    if chunks.len() == 0 {
        Seq::empty()
    } else {
        concat_of(chunks.drop_last()) + chunks.last()@
    }
}

/// Concatenation distributes over pushing one more chunk.
proof fn lemma_concat_push(chunks: Seq<Vec<u8>>, c: Vec<u8>)
    ensures
        concat_of(chunks.push(c)) == concat_of(chunks) + c@,
{
    assert(chunks.push(c).drop_last() =~= chunks);
}

/// Splits `data` into successive chunks of `chunk_size` bytes, the last one
/// possibly shorter. Concatenating the chunks in order restores `data`
/// byte for byte, so a body streamed chunk by chunk carries exactly the
/// file's bytes.
pub fn split_chunks(data: &Vec<u8>, chunk_size: usize) -> (r: Vec<Vec<u8>>)
    requires
        chunk_size >= 1,
    ensures
        concat_of(r@) == data@,
        forall|i: int| 0 <= i < r@.len() ==> 1 <= (#[trigger] r@[i])@.len() <= chunk_size,
        forall|i: int| 0 <= i < r@.len() - 1 ==> (#[trigger] r@[i])@.len() == chunk_size,
        data@.len() == 0 ==> r@.len() == 0,
{
    let mut r: Vec<Vec<u8>> = Vec::new();
    let mut pos: usize = 0;
    while pos < data.len()
        invariant
            pos <= data@.len(),
            chunk_size >= 1,
            concat_of(r@) == data@.subrange(0, pos as int),
            forall|i: int| 0 <= i < r@.len() ==> 1 <= (#[trigger] r@[i])@.len() <= chunk_size,
            forall|i: int| 0 <= i < r@.len() - 1 ==> (#[trigger] r@[i])@.len() == chunk_size,
            r@.len() > 0 && pos < data@.len() ==> r@.last()@.len() == chunk_size,
            pos == 0 ==> r@.len() == 0,
        decreases data@.len() - pos,
    {
        let remaining: usize = data.len() - pos;
        let step: usize = if remaining < chunk_size {
            remaining
        } else {
            chunk_size
        };
        let end: usize = pos + step;
        let mut c: Vec<u8> = Vec::new();
        let mut i: usize = pos;
        while i < end
            invariant
                pos <= i <= end,
                end <= data@.len(),
                c@ == data@.subrange(pos as int, i as int),
            decreases end - i,
        {
            c.push(data[i]);
            assert(c@ =~= data@.subrange(pos as int, i + 1));
            i += 1;
        }
        proof {
            lemma_concat_push(r@, c);
            assert(data@.subrange(0, pos as int) + data@.subrange(pos as int, end as int) =~= data@
                .subrange(0, end as int));
        }
        r.push(c);
        pos = end;
    }
    assert(data@.subrange(0, data@.len() as int) =~= data@);
    r
}

} // verus!
