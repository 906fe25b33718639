//! Byte streams over a growable, page-granular store.
//!
//! A [`page_store::PageStore`] offers four operations: its size in pages,
//! growth by whole pages, and unchecked reads and writes at a byte offset.
//! The cursors of this crate turn it into streams that are safe to call with
//! any offset and any length: reads never pass the committed capacity, writes
//! grow the store as far as they need, seeks only move an offset.
//!
//! [`stable_memory::StableMemory`] is a stream with one offset that reading,
//! writing and seeking share. [`StableMemory`] groups a reader, a writer and a
//! seeker that each keep an offset of their own.

pub mod cursor;
mod internal;
pub mod laws;
pub mod memory_store;
pub mod page_store;
pub mod stable;
pub mod stable_memory;
pub mod time_provider;

use cursor::{filled, read_data, read_len, seek_outcome, write_outcome, SeekFrom, StreamError};
use page_store::PageStore;
use stable::{StableReader, StableSeeker, StableWriter};
use vstd::prelude::*;

verus! {

/// A reader, a writer and a seeker over one store, as one handle.
///
/// The three offsets are independent. A read moves the reader's offset, a
/// write the writer's, a seek the seeker's, and none of them moves another:
/// seeking does not change where the next read or write takes place. Use
/// [`stable_memory::StableMemory`] where one shared offset is wanted.
#[derive(Copy, Clone, Debug)]
pub struct StableMemory {
    reader: StableReader,
    writer: StableWriter,
    seeker: StableSeeker,
}

impl StableMemory {
    /// The reading cursor.
    pub closed spec fn spec_reader(&self) -> StableReader {
        self.reader
    }

    /// The writing cursor.
    pub closed spec fn spec_writer(&self) -> StableWriter {
        self.writer
    }

    /// The seeking cursor.
    pub closed spec fn spec_seeker(&self) -> StableSeeker {
        self.seeker
    }

    /// A handle with all three cursors at offset 0, whose writer has seen the
    /// current size of `store`.
    pub fn new<S: PageStore>(store: &S) -> (stable_memory: Self)
        requires
            store@.wf(),
        ensures
            stable_memory.reader().position() == 0,
            stable_memory.writer().position() == 0,
            stable_memory.writer().cached_pages() == store@.pages,
            stable_memory.seeker().position() == 0,
    {
        StableMemory {
            reader: StableReader::new(),
            writer: StableWriter::new(store),
            seeker: StableSeeker::new(),
        }
    }

    /// The reading cursor.
    #[verifier::when_used_as_spec(spec_reader)]
    pub fn reader(&self) -> (reader: StableReader)
        ensures
            reader == self.spec_reader(),
    {
        self.reader
    }

    /// The writing cursor.
    #[verifier::when_used_as_spec(spec_writer)]
    pub fn writer(&self) -> (writer: StableWriter)
        ensures
            writer == self.spec_writer(),
    {
        self.writer
    }

    /// The seeking cursor.
    #[verifier::when_used_as_spec(spec_seeker)]
    pub fn seeker(&self) -> (seeker: StableSeeker)
        ensures
            seeker == self.spec_seeker(),
    {
        self.seeker
    }

    /// Returns a copy of the store, from its first byte to its last,
    /// wherever the cursors stand.
    pub fn bytes<S: PageStore>(store: &S) -> (all: Vec<u8>)
        requires
            store@.wf(),
            store@.capacity() <= usize::MAX,
        ensures
            all@ == store@.bytes,
    {
        stable_memory::bytes(store)
    }

    /// Attempts to grow the store by adding new pages; the writer takes the
    /// capacity that results for the one it knows of.
    pub fn grow<S: PageStore>(&mut self, store: &mut S, added_pages: u64) -> (r: Result<
        (),
        StreamError,
    >)
        requires
            old(store)@.wf(),
        ensures
            r is Ok <==> old(store).grants(added_pages),
            r is Ok ==> {
                &&& final(store)@ == old(store)@.grown(added_pages as nat)
                &&& final(self).writer().cached_pages() == final(store)@.pages
                &&& final(self).writer().position() == old(self).writer().position()
            },
            r is Err ==> {
                &&& r == Err::<(), StreamError>(StreamError::GrowthFailed)
                &&& final(store)@ == old(store)@
                &&& final(self).writer() == old(self).writer()
            },
            final(self).reader() == old(self).reader(),
            final(self).seeker() == old(self).seeker(),
            final(store)@.wf(),
            old(store)@.pages <= final(store)@.pages,
    {
        self.writer.grow(store, added_pages)
    }

    /// Gets the current size of the store in pages.
    pub fn size<S: PageStore>(store: &S) -> (pages: u64)
        requires
            store@.wf(),
        ensures
            pages == store@.pages,
    {
        store.size()
    }

    /// Reads at the reader's offset: see [`StableReader::read`].
    pub fn read<S: PageStore>(&mut self, store: &S, buf: &mut [u8]) -> (r: Result<
        usize,
        StreamError,
    >)
        requires
            store@.wf(),
        ensures
            r == Ok::<usize, StreamError>(
                read_len(old(self).reader().position(), store@.capacity(), old(buf)@.len()) as usize,
            ),
            final(self).reader().position() == old(self).reader().position() + read_len(
                old(self).reader().position(),
                store@.capacity(),
                old(buf)@.len(),
            ),
            final(buf)@ == filled(
                old(buf)@,
                read_data(store@, old(self).reader().position(), old(buf)@.len()),
            ),
            final(self).writer() == old(self).writer(),
            final(self).seeker() == old(self).seeker(),
    {
        self.reader.read(store, buf)
    }

    /// Writes at the writer's offset: see [`StableWriter::write`].
    pub fn write<S: PageStore>(&mut self, store: &mut S, buf: &[u8]) -> (r: Result<
        usize,
        StreamError,
    >)
        requires
            old(store)@.wf(),
            old(self).writer().tracks(old(store)@),
        ensures
            r == write_outcome(
                old(self).writer().position(),
                old(self).writer().cached_capacity(),
                buf@.len(),
                old(store).grants(old(self).writer().shortfall(buf@.len()) as u64),
            ),
            r is Ok ==> {
                &&& final(store)@ == old(store)@.grown(
                    old(self).writer().shortfall(buf@.len()),
                ).written(old(self).writer().position(), buf@)
                &&& final(self).writer().position() == old(self).writer().position() + buf@.len()
                &&& final(self).writer().cached_pages() == old(self).writer().cached_pages() + old(
                    self,
                ).writer().shortfall(buf@.len())
            },
            r is Err ==> final(store)@ == old(store)@ && final(self).writer() == old(
                self,
            ).writer(),
            final(self).reader() == old(self).reader(),
            final(self).seeker() == old(self).seeker(),
            final(store)@.wf(),
            final(self).writer().tracks(final(store)@),
            old(store)@.pages <= final(store)@.pages,
    {
        self.writer.write(store, buf)
    }

    /// Does nothing: every write has reached the store when it returns.
    pub fn flush(&mut self) -> (r: Result<(), StreamError>)
        ensures
            r is Ok,
            *final(self) == *old(self),
    {
        self.writer.flush()
    }

    /// Moves the seeker's offset: see [`StableSeeker::seek`].
    pub fn seek<S: PageStore>(&mut self, store: &S, pos: SeekFrom) -> (r: Result<
        u64,
        StreamError,
    >)
        requires
            store@.wf(),
        ensures
            r == seek_outcome(old(self).seeker().position(), store@.capacity(), pos),
            r matches Ok(offset) ==> final(self).seeker().position() == offset,
            r is Err ==> final(self).seeker().position() == old(self).seeker().position(),
            final(self).reader() == old(self).reader(),
            final(self).writer() == old(self).writer(),
    {
        self.seeker.seek(store, pos)
    }
}

} // verus!
