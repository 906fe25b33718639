//! The three cursors of a stream over a page store. Each keeps an offset of
//! its own.

use crate::cursor::{
    bounded_len,
    filled,
    pages_needed,
    pages_required,
    read_data,
    read_len,
    resolve_seek,
    seek_outcome,
    write_outcome,
    SeekFrom,
    StreamError,
};
use crate::page_store::{PageStore, StoreView, WASM_PAGE_SIZE_IN_BYTES};
use vstd::prelude::*;

verus! {

/// A reader of the store.
///
/// Keeps an offset and reads the store from there on, never past the
/// committed capacity and never growing it.
#[derive(Clone, Copy, Debug)]
pub struct StableReader {
    /// The offset of the next read.
    offset: u64,
}

impl StableReader {
    /// The offset of the next read.
    pub closed spec fn position(&self) -> nat {
        self.offset as nat
    }

    /// A reader at offset 0.
    pub fn new() -> (reader: Self)
        ensures
            reader.position() == 0,
    {
        StableReader { offset: 0 }
    }

    /// The offset of the next read.
    pub fn offset(&self) -> (offset: u64)
        ensures
            offset == self.position(),
    {
        self.offset
    }

    /// Reads into the front of `buf` as many bytes as the store holds from the
    /// reader's offset on, at most `buf.len()`, and moves the offset past
    /// them. At or past the end of the store that is no byte at all, which is
    /// no error.
    pub fn read<S: PageStore>(&mut self, store: &S, buf: &mut [u8]) -> (r: Result<
        usize,
        StreamError,
    >)
        requires
            store@.wf(),
        ensures
            r == Ok::<usize, StreamError>(
                read_len(old(self).position(), store@.capacity(), old(buf)@.len()) as usize,
            ),
            final(self).position() == old(self).position() + read_len(
                old(self).position(),
                store@.capacity(),
                old(buf)@.len(),
            ),
            final(buf)@ == filled(
                old(buf)@,
                read_data(store@, old(self).position(), old(buf)@.len()),
            ),
    {
        let capacity = store.size() * WASM_PAGE_SIZE_IN_BYTES;
        let n = bounded_len(self.offset, capacity, buf.len());
        if n == 0 {
            assert(buf@ =~= filled(buf@, read_data(store@, self.position(), buf@.len())));
            return Ok(0);
        }
        let (head, rest) = buf.split_at_mut(n);
        store.read_at(self.offset, head);
        assert(head@ + rest@ =~= filled(old(buf)@, head@));
        self.offset = self.offset + n as u64;
        Ok(n)
    }
}

impl Default for StableReader {
    fn default() -> (reader: Self)
        ensures
            reader.position() == 0,
    {
        StableReader::new()
    }
}

/// A writer to the store.
///
/// Keeps an offset and the capacity that it knows of, and grows the store
/// when a write would go past that capacity. It does not ask the store for
/// its size again: it goes by the size that it saw when it was made and by
/// the pages that it has added since.
#[derive(Clone, Copy, Debug)]
pub struct StableWriter {
    /// The offset of the next write.
    offset: u64,
    /// The capacity, in pages.
    capacity: u64,
}

impl StableWriter {
    /// The offset of the next write.
    pub closed spec fn position(&self) -> nat {
        self.offset as nat
    }

    /// The capacity that the writer knows of, in pages.
    pub closed spec fn cached_pages(&self) -> nat {
        self.capacity as nat
    }

    /// The capacity that the writer knows of, in bytes.
    pub open spec fn cached_capacity(&self) -> nat {
        self.cached_pages() * WASM_PAGE_SIZE_IN_BYTES as nat
    }

    /// The writer's cached capacity claims no more than `store` has committed.
    /// This holds of a writer and the store that it was made for, and every
    /// operation on either keeps it.
    pub open spec fn tracks(&self, store: StoreView) -> bool {
        self.cached_pages() <= store.pages
    }

    /// The pages that a write of `len` bytes asks the store for.
    pub open spec fn shortfall(&self, len: nat) -> nat {
        pages_needed(self.position() + len, self.cached_capacity())
    }

    /// A writer at offset 0 that has seen the current size of `store`.
    pub fn new<S: PageStore>(store: &S) -> (writer: Self)
        requires
            store@.wf(),
        ensures
            writer.position() == 0,
            writer.cached_pages() == store@.pages,
    {
        let capacity = store.size();
        StableWriter { offset: 0, capacity }
    }

    /// The offset of the next write.
    pub fn offset(&self) -> (offset: u64)
        ensures
            offset == self.position(),
    {
        self.offset
    }

    /// The capacity that the writer knows of, in pages.
    pub fn capacity(&self) -> (pages: u64)
        ensures
            pages == self.cached_pages(),
    {
        self.capacity
    }

    /// Attempts to grow the store by adding new pages, and takes the capacity
    /// that results for the one it knows of.
    pub fn grow<S: PageStore>(&mut self, store: &mut S, added_pages: u64) -> (r: Result<
        (),
        StreamError,
    >)
        requires
            old(store)@.wf(),
        ensures
            r is Ok <==> old(store).grants(added_pages),
            r is Ok ==> {
                &&& final(store)@ == old(store)@.grown(added_pages as nat)
                &&& final(self).cached_pages() == final(store)@.pages
                &&& final(self).position() == old(self).position()
            },
            r is Err ==> {
                &&& r == Err::<(), StreamError>(StreamError::GrowthFailed)
                &&& final(store)@ == old(store)@
                &&& *final(self) == *old(self)
            },
            final(store)@.wf(),
            old(store)@.pages <= final(store)@.pages,
    {
        match store.grow(added_pages) {
            Ok(old_page_count) => {
                self.capacity = old_page_count + added_pages;
                Ok(())
            },
            Err(_) => Err(StreamError::GrowthFailed),
        }
    }

    /// Writes all of `buf` at the writer's offset and moves the offset past
    /// it, after growing the store by the fewest whole pages that make room
    /// where the write would end past the cached capacity. The cached
    /// capacity goes up by the pages added.
    ///
    /// Fails with `OutOfBounds` when the end of the write cannot be addressed
    /// and with `GrowthFailed` when the store refuses the pages; then nothing
    /// is written and neither the store nor the writer changes.
    pub fn write<S: PageStore>(&mut self, store: &mut S, buf: &[u8]) -> (r: Result<
        usize,
        StreamError,
    >)
        requires
            old(store)@.wf(),
            old(self).tracks(old(store)@),
        ensures
            r == write_outcome(
                old(self).position(),
                old(self).cached_capacity(),
                buf@.len(),
                old(store).grants(old(self).shortfall(buf@.len()) as u64),
            ),
            r is Ok ==> {
                &&& final(store)@ == old(store)@.grown(old(self).shortfall(buf@.len())).written(
                    old(self).position(),
                    buf@,
                )
                &&& final(self).position() == old(self).position() + buf@.len()
                &&& final(self).cached_pages() == old(self).cached_pages() + old(self).shortfall(
                    buf@.len(),
                )
            },
            r is Err ==> final(store)@ == old(store)@ && *final(self) == *old(self),
            final(store)@.wf(),
            final(self).tracks(final(store)@),
            old(store)@.pages <= final(store)@.pages,
    {
        let len = buf.len();
        let end = match self.offset.checked_add(len as u64) {
            Some(end) => end,
            None => {
                return Err(StreamError::OutOfBounds);
            },
        };
        let pages = pages_required(end, self.capacity * WASM_PAGE_SIZE_IN_BYTES);
        if pages > 0 {
            if store.grow(pages).is_err() {
                return Err(StreamError::GrowthFailed);
            }
            self.capacity = self.capacity + pages;
        }
        store.write_at(self.offset, buf);
        self.offset = end;
        Ok(len)
    }

    /// Does nothing: every write has reached the store when it returns.
    pub fn flush(&mut self) -> (r: Result<(), StreamError>)
        ensures
            r is Ok,
            *final(self) == *old(self),
    {
        Ok(())
    }
}

/// A seeker over the store.
///
/// Keeps an offset. Seeking moves that offset and nothing else: it neither
/// reads nor grows the store, and the offset may lie past its end.
#[derive(Clone, Copy, Debug)]
pub struct StableSeeker {
    offset: u64,
}

impl StableSeeker {
    /// The seeker's offset.
    pub closed spec fn position(&self) -> nat {
        self.offset as nat
    }

    /// A seeker at offset 0.
    pub fn new() -> (seeker: Self)
        ensures
            seeker.position() == 0,
    {
        StableSeeker { offset: 0 }
    }

    /// The seeker's offset.
    pub fn offset(&self) -> (offset: u64)
        ensures
            offset == self.position(),
    {
        self.offset
    }

    /// Moves the offset to where `pos` points and returns the new offset.
    /// Fails with `InvalidSeek` when that lies before the first byte and with
    /// `OutOfBounds` when no `u64` holds it; the offset then stays.
    pub fn seek<S: PageStore>(&mut self, store: &S, pos: SeekFrom) -> (r: Result<
        u64,
        StreamError,
    >)
        requires
            store@.wf(),
        ensures
            r == seek_outcome(old(self).position(), store@.capacity(), pos),
            r matches Ok(offset) ==> final(self).position() == offset,
            r is Err ==> final(self).position() == old(self).position(),
    {
        let capacity = match pos {
            SeekFrom::End(_) => store.size() * WASM_PAGE_SIZE_IN_BYTES,
            _ => 0,
        };
        let offset = resolve_seek(self.offset, capacity, pos)?;
        self.offset = offset;
        Ok(offset)
    }
}

impl Default for StableSeeker {
    fn default() -> (seeker: Self)
        ensures
            seeker.position() == 0,
    {
        StableSeeker::new()
    }
}

} // verus!
