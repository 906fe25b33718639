use icfs::memory_store::MemoryStore;
use icfs::page_store::{GrowError, PageStore, WASM_PAGE_SIZE_IN_BYTES};
use icfs::stable_memory::{bytes, StableMemory};

/// A store written in plain Rust, as one outside the library would be.
struct Plain {
    data: Vec<u8>,
}

impl PageStore for Plain {
    fn size(&self) -> u64 {
        self.data.len() as u64 / WASM_PAGE_SIZE_IN_BYTES
    }

    fn grow(&mut self, added_pages: u64) -> Result<u64, GrowError> {
        let previous = self.size();
        if previous + added_pages > 3 {
            return Err(GrowError);
        }
        let len = self.data.len() + (added_pages * WASM_PAGE_SIZE_IN_BYTES) as usize;
        self.data.resize(len, 0);
        Ok(previous)
    }

    fn read_at(&self, offset: u64, out: &mut [u8]) {
        let start = offset as usize;
        out.copy_from_slice(&self.data[start..start + out.len()]);
    }

    fn write_at(&mut self, offset: u64, data: &[u8]) {
        let start = offset as usize;
        self.data[start..start + data.len()].copy_from_slice(data);
    }
}

#[test]
fn page_size_is_64_kib() {
    assert_eq!(WASM_PAGE_SIZE_IN_BYTES, 64 * 1024);
}

#[test]
fn new_store_is_zero_filled() {
    let store = MemoryStore::new(2, 2).unwrap();
    assert_eq!(store.size(), 2);
    let all = bytes(&store);
    assert_eq!(all.len(), 131072);
    assert!(all.iter().all(|b| *b == 0));
}

#[test]
fn a_store_too_large_to_address_is_refused() {
    assert!(MemoryStore::new(u64::MAX, u64::MAX).is_none());
    assert!(MemoryStore::new(0, 0).is_some());
}

#[test]
fn store_grows_up_to_its_limit() {
    let mut store = MemoryStore::new(1, 3).unwrap();
    store.write_at(65535, &[9]);
    assert_eq!(store.grow(2).ok(), Some(1));
    assert_eq!(store.size(), 3);
    let all = bytes(&store);
    assert_eq!(all[65535], 9);
    assert!(all[65536..].iter().all(|b| *b == 0));
    assert!(store.grow(1).is_err());
    assert_eq!(store.size(), 3);
    assert_eq!(store.grow(0).ok(), Some(3));
    assert!(store.grow(u64::MAX).is_err());
    assert_eq!(bytes(&store), all);
}

#[test]
fn store_reads_what_was_written() {
    let mut store = MemoryStore::new(1, 1).unwrap();
    store.write_at(100, &[1, 2, 3, 4]);
    let mut out = [0u8; 6];
    store.read_at(99, &mut out);
    assert_eq!(out, [0, 1, 2, 3, 4, 0]);
    store.write_at(102, &[]);
    store.read_at(99, &mut out);
    assert_eq!(out, [0, 1, 2, 3, 4, 0]);
    let mut none: [u8; 0] = [];
    store.read_at(65536, &mut none);
}

#[test]
fn streams_run_on_a_store_from_outside() {
    let mut store = Plain { data: vec![0; 65536] };
    let mut stream = StableMemory::new();
    icfs::stable_memory::set_offset(&mut stream, 65534);
    assert_eq!(stream.write(&mut store, &[1, 2, 3, 4]), Ok(4));
    assert_eq!(store.size(), 2);
    icfs::stable_memory::set_offset(&mut stream, 65533);
    let mut buf = [9u8; 6];
    assert_eq!(stream.read(&store, &mut buf), Ok(6));
    assert_eq!(buf, [0, 1, 2, 3, 4, 0]);
    icfs::stable_memory::set_offset(&mut stream, 3 * 65536);
    assert_eq!(
        stream.write(&mut store, &[1]),
        Err(icfs::cursor::StreamError::GrowthFailed)
    );
    assert_eq!(store.size(), 2);
}
