//! What holds of every stream over a page store, stated over the same
//! functions as the contracts of the stream operations.

use crate::cursor::{
    filled,
    pages_needed,
    read_data,
    read_len,
    seek_outcome,
    write_outcome,
    SeekFrom,
    StreamError,
};
use crate::page_store::{StoreView, WASM_PAGE_SIZE_IN_BYTES};
use crate::stable::StableWriter;
use vstd::prelude::*;

verus! {

/// One change that a stream operation makes to a store. Every operation of
/// this crate takes a store through a sequence of these, or leaves it as it
/// is.
pub enum StoreStep {
    /// So many zero-filled pages were committed.
    Grow(nat),
    /// These bytes were stored at this offset.
    Write(nat, Seq<u8>),
}

/// The store after one step.
pub open spec fn step(store: StoreView, s: StoreStep) -> StoreView {
    match s {
        StoreStep::Grow(added) => store.grown(added),
        StoreStep::Write(offset, data) => store.written(offset, data),
    }
}

/// The store after a sequence of steps, first to last.
pub open spec fn run(store: StoreView, steps: Seq<StoreStep>) -> StoreView
    decreases steps.len(),
{
    if steps.len() == 0 {
        store
    } else {
        step(run(store, steps.drop_last()), steps.last())
    }
}

/// Writing and reading back: once `data` has been written at `offset`, a
/// read of `data.len()` bytes at `offset` delivers exactly `data`.
///
/// `cached` is the capacity by which the writer decides on growth, which is
/// the store's own capacity where the writer asks the store. The write is
/// taken to have succeeded: its end can be addressed, and the store granted
/// what growth it needed.
pub proof fn lemma_write_then_read(
    store: StoreView,
    cached: nat,
    from: nat,
    offset: nat,
    data: Seq<u8>,
    granted: bool,
)
    requires
        store.wf(),
        cached <= store.capacity(),
        write_outcome(offset, cached, data.len(), granted) is Ok,
    ensures
        seek_outcome(from, store.capacity(), SeekFrom::Start(offset as u64)) == Ok::<
            u64,
            StreamError,
        >(offset as u64),
        offset as u64 == offset,
        ({
            let after = store.grown(pages_needed(offset + data.len(), cached)).written(
                offset,
                data,
            );
            &&& after.bytes.len() == after.capacity()
            &&& read_len(offset, after.capacity(), data.len()) == data.len()
            &&& read_data(after, offset, data.len()) == data
        }),
{
    let grown = store.grown(pages_needed(offset + data.len(), cached));
    let after = grown.written(offset, data);
    assert(offset + data.len() <= grown.capacity());
    assert(grown.bytes.len() == grown.capacity());
    assert(after.bytes.len() == after.capacity());
    assert(read_data(after, offset, data.len()) =~= data);
}

/// Capacity never decreases: whatever steps are taken, the store has at
/// least as many pages afterwards as before.
pub proof fn lemma_capacity_never_decreases(store: StoreView, steps: Seq<StoreStep>)
    ensures
        store.pages <= run(store, steps).pages,
        store.capacity() <= run(store, steps).capacity(),
    decreases steps.len(),
{
    if steps.len() > 0 {
        lemma_capacity_never_decreases(store, steps.drop_last());
    }
}

/// A writer keeps track of its store whoever else changes the store: if the
/// capacity that the writer knows of was no more than the store had
/// committed, it is no more than the store has committed after any steps.
pub proof fn lemma_writer_keeps_track(writer: StableWriter, store: StoreView, steps: Seq<StoreStep>)
    requires
        writer.tracks(store),
    ensures
        writer.tracks(run(store, steps)),
{
    lemma_capacity_never_decreases(store, steps);
}

/// Reading at or past the end is no error and delivers nothing: the read
/// returns 0 and leaves the buffer as it was.
pub proof fn lemma_read_past_end(store: StoreView, offset: nat, buf: Seq<u8>)
    requires
        offset >= store.capacity(),
    ensures
        read_len(offset, store.capacity(), buf.len()) == 0,
        read_data(store, offset, buf.len()) == Seq::<u8>::empty(),
        filled(buf, read_data(store, offset, buf.len())) == buf,
{
    assert(filled(buf, Seq::<u8>::empty()) =~= buf);
}

/// Growth comes in whole pages and in the fewest that make room: where a
/// write ends past the capacity, at least one page is asked for, the pages
/// asked for cover the excess, and one page fewer would not. An excess of up
/// to one page, be it one byte or a full page, asks for exactly one page.
pub proof fn lemma_growth_rounds_up(end: nat, capacity: nat)
    requires
        end > capacity,
    ensures
        pages_needed(end, capacity) >= 1,
        (pages_needed(end, capacity) - 1) * WASM_PAGE_SIZE_IN_BYTES < end - capacity,
        end - capacity <= pages_needed(end, capacity) * WASM_PAGE_SIZE_IN_BYTES,
        end - capacity <= WASM_PAGE_SIZE_IN_BYTES ==> pages_needed(end, capacity) == 1,
{
}

/// A write changes the bytes it covers and no others: afterwards each byte
/// of the store is the written byte where the write covered it, and the byte
/// from before elsewhere, which in a page added for the write is zero.
pub proof fn lemma_write_changes_only_its_range(
    store: StoreView,
    added: nat,
    offset: nat,
    data: Seq<u8>,
    i: int,
)
    requires
        store.wf(),
        offset + data.len() <= store.grown(added).capacity(),
        0 <= i < store.grown(added).capacity(),
    ensures
        store.grown(added).written(offset, data).bytes.len() == store.grown(added).capacity(),
        store.grown(added).written(offset, data).bytes[i] == if offset <= i < offset
            + data.len() {
            data[i - offset]
        } else if i < store.capacity() {
            store.bytes[i]
        } else {
            0u8
        },
{
}

} // verus!
