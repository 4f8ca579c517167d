use crate::chunks::concat_bytes;
use crate::chunks::views_of;
use crate::read::read_all;
use crate::read::ReadOptions;
use crate::write::write_all;
use vstd::prelude::*;

verus! {

/// Round trip: writing an arbitrary run of chunks through a write sink and
/// reading the file back through a read stream reproduces the original
/// bytes exactly, whatever chunk size the read side uses.
pub fn round_trip(chunks: &Vec<Vec<u8>>, opts: &ReadOptions) -> (out: Vec<u8>)
    requires
        opts.wf(),
    ensures
        out@ == concat_bytes(views_of(chunks@)),
{
    let data = write_all(chunks);
    read_all(&data, opts)
}

} // verus!
