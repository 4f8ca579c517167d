use vstd::prelude::*;

verus! {

/// The bytes of a run of chunks, concatenated in order.
pub open spec fn concat_bytes(chunks: Seq<Seq<u8>>) -> Seq<u8>
    decreases chunks.len(),
{
    if chunks.len() == 0 {
        Seq::empty()
    } else {
        concat_bytes(chunks.drop_last()) + chunks.last()
    }
}

/// The byte sequences held by a run of chunk buffers.
pub open spec fn views_of(chunks: Seq<Vec<u8>>) -> Seq<Seq<u8>> {
    chunks.map_values(|c: Vec<u8>| c@)
}

/// Appending one more chunk extends the concatenation by exactly its bytes.
pub proof fn lemma_concat_bytes_push(chunks: Seq<Seq<u8>>, c: Seq<u8>)
    ensures
        concat_bytes(chunks.push(c)) == concat_bytes(chunks) + c,
{
    assert(chunks.push(c).drop_last() =~= chunks);
    assert(chunks.push(c).last() == c);
}

/// A fresh buffer holding the same bytes as `src`.
pub fn copy_bytes(src: &Vec<u8>) -> (out: Vec<u8>)
    ensures
        out@ == src@,
{
    let mut out: Vec<u8> = Vec::new();
    let mut i: usize = 0;
    while i < src.len()
        invariant
            i <= src.len(),
            out@ == src@.subrange(0, i as int),
        decreases src.len() - i,
    {
        out.push(src[i]);
        proof {
            assert(out@ =~= src@.subrange(0, i + 1 as int));
        }
        i = i + 1;
    }
    proof {
        assert(out@ =~= src@);
    }
    out
}

} // verus!
