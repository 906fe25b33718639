//! A stream over a page store with one offset, which reading, writing and
//! seeking share.

use crate::cursor::{
    bounded_len,
    filled,
    pages_needed,
    pages_required,
    read_data,
    read_len,
    resolve_seek,
    seek_outcome,
    write_outcome,
    SeekFrom,
    StreamError,
};
use crate::internal::default_read_to_end;
use crate::page_store::{GrowError, PageStore, WASM_PAGE_SIZE_IN_BYTES};
use vstd::prelude::*;

verus! {

/// A position in a page store: the offset at which the next read or write
/// takes place, and from which a relative seek counts.
#[derive(Copy, Clone, Debug, Eq, PartialEq, Structural)]
pub struct StableMemory {
    offset: u64,
}

/// The offset of the stream.
pub fn get_offset(stable_memory: &StableMemory) -> (offset: u64)
    ensures
        offset == stable_memory.position(),
{
    stable_memory.offset
}

/// Puts the stream at `offset`.
pub fn set_offset(stable_memory: &mut StableMemory, offset: u64)
    ensures
        final(stable_memory).position() == offset,
{
    stable_memory.offset = offset
}

/// Returns a copy of the store.
///
/// This copies every committed page, whether or not it was ever written to.
pub fn bytes<S: PageStore>(store: &S) -> (all: Vec<u8>)
    requires
        store@.wf(),
        store@.capacity() <= usize::MAX,
    ensures
        all@ == store@.bytes,
{
    let capacity = capacity(store);
    let mut all = vec![0u8; capacity as usize];
    store.read_at(0, all.as_mut_slice());
    assert(all@ =~= store@.bytes);
    all
}

/// Gets the capacity of the store in bytes.
pub fn capacity<S: PageStore>(store: &S) -> (capacity: u64)
    requires
        store@.wf(),
    ensures
        capacity == store@.capacity(),
{
    size(store) * WASM_PAGE_SIZE_IN_BYTES
}

/// Attempts to grow the store by adding new pages. Returns the page count
/// from before.
pub fn grow<S: PageStore>(store: &mut S, added_pages: u64) -> (r: Result<u64, GrowError>)
    requires
        old(store)@.wf(),
    ensures
        r is Ok <==> old(store).grants(added_pages),
        r matches Ok(previous) ==> previous == old(store)@.pages && final(store)@ == old(
            store,
        )@.grown(added_pages as nat),
        r is Err ==> final(store)@ == old(store)@,
        final(store)@.wf(),
        old(store)@.pages <= final(store)@.pages,
{
    store.grow(added_pages)
}

/// Gets the current size of the store in pages.
pub fn size<S: PageStore>(store: &S) -> (pages: u64)
    requires
        store@.wf(),
    ensures
        pages == store@.pages,
{
    store.size()
}

/// Reads into the front of `buf` as many bytes as the store holds from the
/// stream's offset on, at most `buf.len()`, and moves the offset past them.
/// At or past the end of the store that is no byte at all, which is no error.
pub fn read<S: PageStore>(stable_memory: &mut StableMemory, store: &S, buf: &mut [u8]) -> (r:
    Result<usize, StreamError>)
    requires
        store@.wf(),
    ensures
        r == Ok::<usize, StreamError>(
            read_len(old(stable_memory).position(), store@.capacity(), old(buf)@.len()) as usize,
        ),
        final(stable_memory).position() == old(stable_memory).position() + read_len(
            old(stable_memory).position(),
            store@.capacity(),
            old(buf)@.len(),
        ),
        final(buf)@ == filled(
            old(buf)@,
            read_data(store@, old(stable_memory).position(), old(buf)@.len()),
        ),
{
    let offset = get_offset(stable_memory);
    let n = bounded_len(offset, capacity(store), buf.len());
    if n == 0 {
        assert(buf@ =~= filled(buf@, read_data(store@, offset as nat, buf@.len())));
        return Ok(0);
    }
    let (head, rest) = buf.split_at_mut(n);
    store.read_at(offset, head);
    assert(head@ + rest@ =~= filled(old(buf)@, head@));
    set_offset(stable_memory, offset + n as u64);
    Ok(n)
}

/// Moves the offset to where `pos` points and returns the new offset. Fails
/// with `InvalidSeek` when that lies before the first byte and with
/// `OutOfBounds` when no `u64` holds it; the offset then stays.
///
/// The target may lie past the end of the store, which does not grow for it.
pub fn seek<S: PageStore>(stable_memory: &mut StableMemory, store: &S, pos: SeekFrom) -> (r:
    Result<u64, StreamError>)
    requires
        store@.wf(),
    ensures
        r == seek_outcome(old(stable_memory).position(), store@.capacity(), pos),
        r matches Ok(offset) ==> final(stable_memory).position() == offset,
        r is Err ==> final(stable_memory).position() == old(stable_memory).position(),
{
    let capacity = match pos {
        SeekFrom::End(_) => capacity(store),
        _ => 0,
    };
    let offset = resolve_seek(get_offset(stable_memory), capacity, pos)?;
    set_offset(stable_memory, offset);
    Ok(offset)
}

/// Writes all of `buf` at the stream's offset and moves the offset past it,
/// after growing the store by the fewest whole pages that make room where the
/// write would end past the committed capacity.
///
/// Fails with `OutOfBounds` when the end of the write cannot be addressed and
/// with `GrowthFailed` when the store refuses the pages; then nothing is
/// written and neither the store nor the stream changes.
pub fn write<S: PageStore>(stable_memory: &mut StableMemory, store: &mut S, buf: &[u8]) -> (r:
    Result<usize, StreamError>)
    requires
        old(store)@.wf(),
    ensures
        r == write_outcome(
            old(stable_memory).position(),
            old(store)@.capacity(),
            buf@.len(),
            old(store).grants(old(stable_memory).shortfall(old(store)@.capacity(), buf@.len()) as u64),
        ),
        r is Ok ==> {
            &&& final(store)@ == old(store)@.grown(
                old(stable_memory).shortfall(old(store)@.capacity(), buf@.len()),
            ).written(old(stable_memory).position(), buf@)
            &&& final(stable_memory).position() == old(stable_memory).position() + buf@.len()
        },
        r is Err ==> final(store)@ == old(store)@ && *final(stable_memory) == *old(stable_memory),
        final(store)@.wf(),
        old(store)@.pages <= final(store)@.pages,
{
    let offset = get_offset(stable_memory);
    let len = buf.len();
    let end = match offset.checked_add(len as u64) {
        Some(end) => end,
        None => {
            return Err(StreamError::OutOfBounds);
        },
    };
    let additional_pages_required = pages_required(end, capacity(store));
    if additional_pages_required > 0 {
        if grow(store, additional_pages_required).is_err() {
            return Err(StreamError::GrowthFailed);
        }
    }
    store.write_at(offset, buf);
    set_offset(stable_memory, end);
    Ok(len)
}

impl StableMemory {
    /// The offset of the stream.
    pub closed spec fn position(&self) -> nat {
        self.offset as nat
    }

    /// The pages that a write of `len` bytes asks for when the store holds
    /// `capacity` bytes.
    pub open spec fn shortfall(&self, capacity: nat, len: nat) -> nat {
        pages_needed(self.position() + len, capacity)
    }

    /// A stream at offset 0.
    pub fn new() -> (stable_memory: Self)
        ensures
            stable_memory.position() == 0,
    {
        StableMemory { offset: 0 }
    }

    /// Returns a copy of the store.
    ///
    /// This copies every committed page, whether or not it was ever written
    /// to.
    pub fn bytes<S: PageStore>(store: &S) -> (all: Vec<u8>)
        requires
            store@.wf(),
            store@.capacity() <= usize::MAX,
        ensures
            all@ == store@.bytes,
    {
        bytes(store)
    }

    /// Gets the capacity of the store in bytes.
    pub fn capacity<S: PageStore>(store: &S) -> (capacity: u64)
        requires
            store@.wf(),
        ensures
            capacity == store@.capacity(),
    {
        capacity(store)
    }

    /// Attempts to grow the store by adding new pages. Returns the page count
    /// from before, or `GrowthFailed`.
    pub fn grow<S: PageStore>(store: &mut S, added_pages: u64) -> (r: Result<u64, StreamError>)
        requires
            old(store)@.wf(),
        ensures
            r is Ok <==> old(store).grants(added_pages),
            r matches Ok(previous) ==> previous == old(store)@.pages && final(store)@ == old(
                store,
            )@.grown(added_pages as nat),
            r matches Err(e) ==> e == StreamError::GrowthFailed && final(store)@ == old(store)@,
            final(store)@.wf(),
            old(store)@.pages <= final(store)@.pages,
    {
        match grow(store, added_pages) {
            Ok(previous) => Ok(previous),
            Err(_) => Err(StreamError::GrowthFailed),
        }
    }

    /// Gets the current size of the store in pages.
    pub fn size<S: PageStore>(store: &S) -> (pages: u64)
        requires
            store@.wf(),
        ensures
            pages == store@.pages,
    {
        size(store)
    }

    /// Reads at the stream's offset: see [`read`].
    pub fn read<S: PageStore>(&mut self, store: &S, buf: &mut [u8]) -> (r: Result<
        usize,
        StreamError,
    >)
        requires
            store@.wf(),
        ensures
            r == Ok::<usize, StreamError>(
                read_len(old(self).position(), store@.capacity(), old(buf)@.len()) as usize,
            ),
            final(self).position() == old(self).position() + read_len(
                old(self).position(),
                store@.capacity(),
                old(buf)@.len(),
            ),
            final(buf)@ == filled(
                old(buf)@,
                read_data(store@, old(self).position(), old(buf)@.len()),
            ),
    {
        read(self, store, buf)
    }

    /// Appends to `buf` every byte from the stream's offset to the end of the
    /// store, and leaves the offset at the end. Returns how many bytes that
    /// was; past the end it is none, which is no error.
    pub fn read_to_end<S: PageStore>(&mut self, store: &S, buf: &mut Vec<u8>) -> (r: Result<
        usize,
        StreamError,
    >)
        requires
            store@.wf(),
        ensures
            r == Ok::<usize, StreamError>(
                read_len(old(self).position(), store@.capacity(), store@.capacity()) as usize,
            ),
            final(self).position() == old(self).position() + read_len(
                old(self).position(),
                store@.capacity(),
                store@.capacity(),
            ),
            final(buf)@ == old(buf)@ + read_data(
                store@,
                old(self).position(),
                store@.capacity(),
            ),
    {
        default_read_to_end(self, store, buf)
    }

    /// Writes at the stream's offset: see [`write`].
    pub fn write<S: PageStore>(&mut self, store: &mut S, buf: &[u8]) -> (r: Result<
        usize,
        StreamError,
    >)
        requires
            old(store)@.wf(),
        ensures
            r == write_outcome(
                old(self).position(),
                old(store)@.capacity(),
                buf@.len(),
                old(store).grants(old(self).shortfall(old(store)@.capacity(), buf@.len()) as u64),
            ),
            r is Ok ==> {
                &&& final(store)@ == old(store)@.grown(
                    old(self).shortfall(old(store)@.capacity(), buf@.len()),
                ).written(old(self).position(), buf@)
                &&& final(self).position() == old(self).position() + buf@.len()
            },
            r is Err ==> final(store)@ == old(store)@ && *final(self) == *old(self),
            final(store)@.wf(),
            old(store)@.pages <= final(store)@.pages,
    {
        write(self, store, buf)
    }

    /// Does nothing: every write has reached the store when it returns.
    pub fn flush(&mut self) -> (r: Result<(), StreamError>)
        ensures
            r is Ok,
            *final(self) == *old(self),
    {
        Ok(())
    }

    /// Moves the stream's offset: see [`seek`].
    pub fn seek<S: PageStore>(&mut self, store: &S, pos: SeekFrom) -> (r: Result<
        u64,
        StreamError,
    >)
        requires
            store@.wf(),
        ensures
            r == seek_outcome(old(self).position(), store@.capacity(), pos),
            r matches Ok(offset) ==> final(self).position() == offset,
            r is Err ==> final(self).position() == old(self).position(),
    {
        seek(self, store, pos)
    }
}

impl Default for StableMemory {
    fn default() -> (stable_memory: Self)
        ensures
            stable_memory.position() == 0,
    {
        StableMemory::new()
    }
}

} // verus!
