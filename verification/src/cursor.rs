//! The arithmetic of a stream cursor: how far a read may go, how many pages a
//! write needs, where a seek lands. Nothing here touches a store.

use crate::page_store::{StoreView, WASM_PAGE_SIZE_IN_BYTES};
use vstd::prelude::*;

verus! {

/// Why a stream operation was refused. A refused operation changes nothing.
#[derive(Clone, Copy, Debug, PartialEq, Eq, Structural)]
pub enum StreamError {
    /// The position or the extent asked for lies beyond what a `u64` offset
    /// can address.
    OutOfBounds,
    /// The store refused to commit the pages that a write needs.
    GrowthFailed,
    /// The seek would land before the first byte.
    InvalidSeek,
}

/// Where to move a cursor.
#[derive(Clone, Copy, Debug, PartialEq, Eq, Structural)]
pub enum SeekFrom {
    /// To this offset.
    Start(u64),
    /// To the committed capacity plus this distance.
    End(i64),
    /// To the current offset plus this distance.
    Current(i64),
}

/// The number of bytes that a read of up to `want` bytes delivers at `offset`
/// in a region of `capacity` bytes: none at or past the end, otherwise as many
/// as are left, up to `want`.
pub open spec fn read_len(offset: nat, capacity: nat, want: nat) -> nat {
    if offset >= capacity {
        0
    } else if want <= capacity - offset {
        want
    } else {
        (capacity - offset) as nat
    }
}

/// The bytes that a read of up to `want` bytes delivers at `offset`:
/// `read_len` of them, taken from the store at `offset`.
pub open spec fn read_data(store: StoreView, offset: nat, want: nat) -> Seq<u8> {
    if offset >= store.capacity() {
        Seq::empty()
    } else {
        store.window(offset, read_len(offset, store.capacity(), want))
    }
}

/// The fewest whole pages that bring a region of `capacity` bytes up to `end`
/// bytes.
pub open spec fn pages_needed(end: nat, capacity: nat) -> nat {
    if end <= capacity {
        0
    } else {
        ((end - capacity + WASM_PAGE_SIZE_IN_BYTES - 1) / WASM_PAGE_SIZE_IN_BYTES as int) as nat
    }
}

/// The position that a seek aims at, which may be negative or beyond `u64`.
pub open spec fn seek_target(offset: nat, capacity: nat, pos: SeekFrom) -> int {
    match pos {
        SeekFrom::Start(n) => n as int,
        SeekFrom::End(delta) => capacity + delta,
        SeekFrom::Current(delta) => offset + delta,
    }
}

/// What a seek returns: its target, if that is an offset.
pub open spec fn seek_outcome(offset: nat, capacity: nat, pos: SeekFrom) -> Result<
    u64,
    StreamError,
> {
    let target = seek_target(offset, capacity, pos);
    if target < 0 {
        Err(StreamError::InvalidSeek)
    } else if target > u64::MAX {
        Err(StreamError::OutOfBounds)
    } else {
        Ok(target as u64)
    }
}

/// What a write of `len` bytes at `offset` returns, when the writer takes the
/// region to hold `capacity` bytes and the store grants the growth it may ask
/// for or not.
pub open spec fn write_outcome(offset: nat, capacity: nat, len: nat, granted: bool) -> Result<
    usize,
    StreamError,
> {
    if offset + len > u64::MAX {
        Err(StreamError::OutOfBounds)
    } else if offset + len > capacity && !granted {
        Err(StreamError::GrowthFailed)
    } else {
        Ok(len as usize)
    }
}

/// `buf` after its first bytes were replaced by `data`.
pub open spec fn filled(buf: Seq<u8>, data: Seq<u8>) -> Seq<u8>
    recommends
        data.len() <= buf.len(),
{
    data + buf.subrange(data.len() as int, buf.len() as int)
}

/// Computes `read_len`.
pub fn bounded_len(offset: u64, capacity: u64, want: usize) -> (n: usize)
    ensures
        n == read_len(offset as nat, capacity as nat, want as nat),
{
    if offset >= capacity {
        0
    } else {
        let left: u64 = capacity - offset;
        if want as u64 <= left {
            want
        } else {
            left as usize
        }
    }
}

/// Computes `pages_needed`.
pub fn pages_required(end: u64, capacity: u64) -> (pages: u64)
    ensures
        pages == pages_needed(end as nat, capacity as nat),
{
    if end <= capacity {
        0
    } else {
        let deficit: u64 = end - capacity;
        (deficit - 1) / WASM_PAGE_SIZE_IN_BYTES + 1
    }
}

/// Computes `seek_outcome`.
pub fn resolve_seek(offset: u64, capacity: u64, pos: SeekFrom) -> (r: Result<u64, StreamError>)
    ensures
        r == seek_outcome(offset as nat, capacity as nat, pos),
{
    let target: i128 = match pos {
        SeekFrom::Start(n) => n as i128,
        SeekFrom::End(delta) => capacity as i128 + delta as i128,
        SeekFrom::Current(delta) => offset as i128 + delta as i128,
    };
    if target < 0 {
        Err(StreamError::InvalidSeek)
    } else if target > u64::MAX as i128 {
        Err(StreamError::OutOfBounds)
    } else {
        Ok(target as u64)
    }
}

} // verus!
