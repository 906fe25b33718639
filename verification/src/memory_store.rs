//! A page store that lives in ordinary memory.

use crate::page_store::{GrowError, PageStore, StoreView, WASM_PAGE_SIZE_IN_BYTES, zeros};
use vstd::prelude::*;

verus! {

/// A page store held in a `Vec`, with a fixed ceiling on the number of pages
/// that it will ever commit.
pub struct MemoryStore {
    bytes: Vec<u8>,
    limit: u64,
}

impl MemoryStore {
    /// The most pages that this store commits.
    pub closed spec fn page_limit(&self) -> nat {
        self.limit as nat
    }

    /// A store of `pages` zero-filled pages that grows up to `limit` pages.
    /// `None` when that many pages cannot be addressed on this machine.
    pub fn new(pages: u64, limit: u64) -> (r: Option<MemoryStore>)
        ensures
            r is Some <==> pages * WASM_PAGE_SIZE_IN_BYTES <= usize::MAX,
            r matches Some(store) ==> {
                &&& store@.wf()
                &&& store@.pages == pages
                &&& store@.bytes == zeros(store@.capacity())
                &&& store.page_limit() == limit
            },
    {
        if pages > usize::MAX as u64 / WASM_PAGE_SIZE_IN_BYTES {
            return None;
        }
        let len: usize = (pages * WASM_PAGE_SIZE_IN_BYTES) as usize;
        let bytes = vec![0u8; len];
        let store = MemoryStore { bytes, limit };
        assert(store.bytes@ =~= zeros(len as nat));
        Some(store)
    }
}

impl PageStore for MemoryStore {
    closed spec fn view(&self) -> StoreView {
        StoreView {
            pages: self.bytes@.len() / WASM_PAGE_SIZE_IN_BYTES as nat,
            bytes: self.bytes@,
        }
    }

    /// Growth is granted up to the page limit, and as far as the machine can
    /// address the bytes.
    open spec fn grants(&self, added_pages: u64) -> bool {
        &&& self@.pages + added_pages <= self.page_limit()
        &&& (self@.pages + added_pages) * WASM_PAGE_SIZE_IN_BYTES <= usize::MAX
    }

    fn size(&self) -> (pages: u64) {
        (self.bytes.len() / WASM_PAGE_SIZE_IN_BYTES as usize) as u64
    }

    fn grow(&mut self, added_pages: u64) -> (r: Result<u64, GrowError>) {
        let previous = self.size();
        if added_pages > self.limit || previous > self.limit - added_pages {
            return Err(GrowError);
        }
        let pages = previous + added_pages;
        if pages > usize::MAX as u64 / WASM_PAGE_SIZE_IN_BYTES {
            return Err(GrowError);
        }
        let len: usize = (pages * WASM_PAGE_SIZE_IN_BYTES) as usize;
        let ghost before = self.bytes@;
        self.bytes.resize(len, 0u8);
        assert(self.bytes@ =~= before + zeros((added_pages * WASM_PAGE_SIZE_IN_BYTES) as nat));
        Ok(previous)
    }

    fn read_at(&self, offset: u64, out: &mut [u8]) {
        let len = out.len();
        let total = self.bytes.len();
        let start = offset as usize;
        let mut i: usize = 0;
        while i < len
            invariant
                i <= len,
                out@.len() == len,
                start + len <= self.bytes@.len() == total,
                forall|j: int| 0 <= j < i ==> out@[j] == self.bytes@[start + j],
            decreases len - i,
        {
            out[i] = self.bytes[start + i];
            i += 1;
        }
        assert(out@ =~= self@.window(offset as nat, len as nat));
    }

    fn write_at(&mut self, offset: u64, data: &[u8]) {
        let len = data.len();
        let total = self.bytes.len();
        let start = offset as usize;
        let ghost before = self.bytes@;
        let mut i: usize = 0;
        while i < len
            invariant
                i <= len,
                data@.len() == len,
                self.bytes@.len() == before.len() == total,
                start + len <= before.len(),
                forall|j: int| 0 <= j < i ==> self.bytes@[start + j] == data@[j],
                forall|j: int|
                    0 <= j < before.len() && !(start <= j < start + i) ==> self.bytes@[j]
                        == before[j],
            decreases len - i,
        {
            self.bytes[start + i] = data[i];
            i += 1;
        }
        assert(self.bytes@ =~= old(self)@.written(offset as nat, data@).bytes);
    }
}

} // verus!
