use vstd::prelude::*;

verus! {

/// One step of reading a stream in chunks of `chunk.len()` bytes: the whole
/// chunk is kept, and reading goes on while a read fills its chunk.
pub fn append_chunk(out: &mut Vec<u8>, chunk: Vec<u8>, bytes_read: usize) -> (more: bool)
    ensures
        final(out)@ == old(out)@ + chunk@,
        more == (bytes_read == chunk@.len()),
{
    let more = bytes_read == chunk.len();
    let mut chunk = chunk;
    out.append(&mut chunk);
    more
}

} // verus!
