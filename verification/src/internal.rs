//! Reading a stream to its end.

use crate::cursor::{read_data, read_len, StreamError};
use crate::page_store::PageStore;
use crate::stable_memory::{read, StableMemory};
use vstd::prelude::*;

verus! {

/// Reads `r` until it delivers nothing more, 32 bytes at a time, and appends
/// what it delivered to `buf`. Returns the number of bytes appended.
pub(crate) fn default_read_to_end<S: PageStore>(
    r: &mut StableMemory,
    store: &S,
    buf: &mut Vec<u8>,
) -> (res: Result<usize, StreamError>)
    requires
        store@.wf(),
    ensures
        res == Ok::<usize, StreamError>(
            read_len(old(r).position(), store@.capacity(), store@.capacity()) as usize,
        ),
        final(r).position() == old(r).position() + read_len(
            old(r).position(),
            store@.capacity(),
            store@.capacity(),
        ),
        final(buf)@ == old(buf)@ + read_data(store@, old(r).position(), store@.capacity()),
{
    let start_len = buf.len();
    let ghost start = r.position();
    let ghost capacity = store@.capacity();
    let mut probe = [0u8; 32];
    loop
        invariant
            store@.wf(),
            capacity == store@.capacity(),
            probe@.len() == 32,
            start_len == old(buf)@.len(),
            start == old(r).position(),
            start >= capacity ==> r.position() == start && buf@ == old(buf)@,
            start < capacity ==> start <= r.position() <= capacity && buf@ == old(buf)@
                + store@.bytes.subrange(start as int, r.position() as int),
        decreases capacity - r.position(),
    {
        let ghost before = buf@;
        let ghost at = r.position();
        let n = read(r, store, &mut probe)?;
        if n == 0 {
            assert(buf@ =~= old(buf)@ + read_data(store@, start, capacity));
            return Ok(buf.len() - start_len);
        }
        buf.extend_from_slice(&probe[0..n]);
        assert(buf@ =~= before + store@.bytes.subrange(at as int, at + n));
    }
}

} // verus!
