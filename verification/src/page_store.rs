//! The page store: a growable region of fixed-size pages, addressed by byte
//! offset, and the contract that every implementation of it keeps.

use vstd::prelude::*;

verus! {

/// Size of one page of the store, in bytes.
pub const WASM_PAGE_SIZE_IN_BYTES: u64 = 65536;

/// The store refused to commit more pages.
#[derive(Clone, Copy, Debug)]
pub struct GrowError;

/// What a page store holds: the number of committed pages and every byte in
/// them.
#[verifier::ext_equal]
pub struct StoreView {
    pub pages: nat,
    pub bytes: Seq<u8>,
}

/// `n` zero bytes.
pub open spec fn zeros(n: nat) -> Seq<u8> {
    Seq::new(n, |i: int| 0u8)
}

impl StoreView {
    /// Committed capacity in bytes.
    pub open spec fn capacity(self) -> nat {
        self.pages * WASM_PAGE_SIZE_IN_BYTES as nat
    }

    /// The bytes fill the committed pages exactly, and every byte has an
    /// offset that fits in `u64`.
    pub open spec fn wf(self) -> bool {
        &&& self.bytes.len() == self.capacity()
        &&& self.capacity() <= u64::MAX
    }

    /// The store after `added` zero-filled pages were committed.
    pub open spec fn grown(self, added: nat) -> StoreView {
        StoreView {
            pages: self.pages + added,
            bytes: self.bytes + zeros(added * WASM_PAGE_SIZE_IN_BYTES as nat),
        }
    }

    /// The store after `data` replaced the bytes from `offset` on.
    pub open spec fn written(self, offset: nat, data: Seq<u8>) -> StoreView
        recommends
            offset + data.len() <= self.bytes.len(),
    {
        StoreView {
            pages: self.pages,
            bytes: self.bytes.subrange(0, offset as int) + data + self.bytes.subrange(
                (offset + data.len()) as int,
                self.bytes.len() as int,
            ),
        }
    }

    /// The `len` bytes that start at `offset`.
    pub open spec fn window(self, offset: nat, len: nat) -> Seq<u8>
        recommends
            offset + len <= self.bytes.len(),
    {
        self.bytes.subrange(offset as int, (offset + len) as int)
    }
}

/// A growable, page-granular byte region.
///
/// The four operations are the whole interface. `read_at` and `write_at` do
/// no bounds checking of their own: the caller keeps every access inside the
/// committed capacity, which their preconditions demand.
///
/// `view` and `grants` are the model that the contracts speak of. An
/// implementation that is not verified may leave both at their defaults, of
/// which nothing is known.
pub trait PageStore {
    /// The pages and bytes that the store holds.
    open spec fn view(&self) -> StoreView {
        arbitrary()
    }

    /// Whether the store, as it stands, would commit `added_pages` more pages.
    open spec fn grants(&self, added_pages: u64) -> bool {
        arbitrary()
    }

    /// Current size in pages.
    fn size(&self) -> (pages: u64)
        requires
            self@.wf(),
        ensures
            pages == self@.pages,
    ;

    /// Asks for `added_pages` more pages. On success the new pages are
    /// zero-filled and the previous page count is returned; on failure the
    /// store is unchanged.
    fn grow(&mut self, added_pages: u64) -> (r: Result<u64, GrowError>)
        requires
            old(self)@.wf(),
        ensures
            r is Ok <==> old(self).grants(added_pages),
            r matches Ok(previous) ==> previous == old(self)@.pages && final(self)@ == old(
                self,
            )@.grown(added_pages as nat),
            r is Err ==> final(self)@ == old(self)@,
            final(self)@.wf(),
            old(self)@.pages <= final(self)@.pages,
    ;

    /// Fills `out` with the bytes that start at `offset`.
    fn read_at(&self, offset: u64, out: &mut [u8])
        requires
            self@.wf(),
            offset + old(out)@.len() <= self@.capacity(),
        ensures
            final(out)@ == self@.window(offset as nat, old(out)@.len()),
    ;

    /// Stores `data` at `offset`.
    fn write_at(&mut self, offset: u64, data: &[u8])
        requires
            old(self)@.wf(),
            offset + data@.len() <= old(self)@.capacity(),
        ensures
            final(self)@ == old(self)@.written(offset as nat, data@),
            final(self)@.wf(),
            old(self)@.pages == final(self)@.pages,
    ;
}

} // verus!
