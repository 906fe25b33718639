use icfs::cursor::{bounded_len, pages_required, resolve_seek, SeekFrom, StreamError};
use icfs::memory_store::MemoryStore;
use icfs::page_store::PageStore;
use icfs::stable::{StableReader, StableSeeker, StableWriter};
use icfs::StableMemory;

const PAGE: u64 = 65536;

#[test]
fn bounded_len_is_what_is_left_up_to_the_request() {
    assert_eq!(bounded_len(0, 65536, 4), 4);
    assert_eq!(bounded_len(65534, 65536, 4), 2);
    assert_eq!(bounded_len(65535, 65536, 1), 1);
    assert_eq!(bounded_len(65536, 65536, 4), 0);
    assert_eq!(bounded_len(65537, 65536, 4), 0);
    assert_eq!(bounded_len(u64::MAX, 65536, usize::MAX), 0);
    assert_eq!(bounded_len(10, 65536, 0), 0);
    assert_eq!(bounded_len(0, 0, 9), 0);
}

#[test]
fn pages_required_is_the_ceiling_of_the_excess() {
    assert_eq!(pages_required(0, 0), 0);
    assert_eq!(pages_required(65536, 65536), 0);
    assert_eq!(pages_required(8, 65536), 0);
    assert_eq!(pages_required(65537, 65536), 1);
    assert_eq!(pages_required(131072, 65536), 1);
    assert_eq!(pages_required(131073, 65536), 2);
    assert_eq!(pages_required(1, 0), 1);
    assert_eq!(pages_required(65536, 0), 1);
    assert_eq!(pages_required(u64::MAX, 0), 1 << 48);
    assert_eq!(pages_required(u64::MAX, u64::MAX - 65536), 1);
}

#[test]
fn resolve_seek_gives_the_target_or_the_error() {
    assert_eq!(resolve_seek(7, 100, SeekFrom::Start(3)), Ok(3));
    assert_eq!(resolve_seek(7, 100, SeekFrom::Current(-7)), Ok(0));
    assert_eq!(resolve_seek(7, 100, SeekFrom::Current(-8)), Err(StreamError::InvalidSeek));
    assert_eq!(resolve_seek(7, 100, SeekFrom::End(-100)), Ok(0));
    assert_eq!(resolve_seek(7, 100, SeekFrom::End(-101)), Err(StreamError::InvalidSeek));
    assert_eq!(resolve_seek(7, 100, SeekFrom::End(1)), Ok(101));
    assert_eq!(resolve_seek(7, 0, SeekFrom::End(i64::MIN)), Err(StreamError::InvalidSeek));
    assert_eq!(resolve_seek(u64::MAX, 0, SeekFrom::Current(0)), Ok(u64::MAX));
    assert_eq!(resolve_seek(u64::MAX, 0, SeekFrom::Current(1)), Err(StreamError::OutOfBounds));
    assert_eq!(resolve_seek(0, u64::MAX, SeekFrom::End(i64::MAX)), Err(StreamError::OutOfBounds));
    assert_eq!(resolve_seek(0, u64::MAX, SeekFrom::End(i64::MIN)), Ok(u64::MAX - (1 << 63)));
}

#[test]
fn reader_starts_at_zero_and_advances() {
    let mut store = MemoryStore::new(1, 1).unwrap();
    store.write_at(0, &[10, 11, 12, 13, 14]);
    let mut reader = StableReader::new();
    assert_eq!(reader.offset(), 0);
    let mut buf = [0u8; 3];
    assert_eq!(reader.read(&store, &mut buf), Ok(3));
    assert_eq!(buf, [10, 11, 12]);
    assert_eq!(reader.offset(), 3);
    assert_eq!(reader.read(&store, &mut buf), Ok(3));
    assert_eq!(buf, [13, 14, 0]);
    assert_eq!(reader.offset(), 6);
    assert_eq!(StableReader::default().offset(), 0);
}

#[test]
fn reader_stops_at_the_end_of_the_store() {
    let store = MemoryStore::new(1, 1).unwrap();
    let mut reader = StableReader::new();
    let mut big = vec![1u8; PAGE as usize + 100];
    assert_eq!(reader.read(&store, &mut big), Ok(PAGE as usize));
    assert!(big[..PAGE as usize].iter().all(|b| *b == 0));
    assert!(big[PAGE as usize..].iter().all(|b| *b == 1));
    assert_eq!(reader.offset(), PAGE);
    assert_eq!(reader.read(&store, &mut big), Ok(0));
    assert_eq!(reader.offset(), PAGE);
    assert_eq!(store.size(), 1);
}

#[test]
fn reader_of_an_empty_store_reads_nothing() {
    let store = MemoryStore::new(0, 4).unwrap();
    let mut reader = StableReader::new();
    let mut buf = [3u8; 4];
    assert_eq!(reader.read(&store, &mut buf), Ok(0));
    assert_eq!(buf, [3, 3, 3, 3]);
}

#[test]
fn writer_grows_an_empty_store() {
    let mut store = MemoryStore::new(0, 4).unwrap();
    let mut writer = StableWriter::new(&store);
    assert_eq!(writer.capacity(), 0);
    assert_eq!(writer.write(&mut store, &[1]), Ok(1));
    assert_eq!(store.size(), 1);
    assert_eq!(writer.capacity(), 1);
    assert_eq!(writer.offset(), 1);
}

#[test]
fn writer_appends_and_grows_by_whole_pages() {
    let mut store = MemoryStore::new(1, 4).unwrap();
    let mut writer = StableWriter::new(&store);
    let chunk = vec![7u8; 40000];
    assert_eq!(writer.write(&mut store, &chunk), Ok(40000));
    assert_eq!(store.size(), 1);
    assert_eq!(writer.write(&mut store, &chunk), Ok(40000));
    assert_eq!(store.size(), 2);
    assert_eq!(writer.capacity(), 2);
    assert_eq!(writer.offset(), 80000);
    let big = vec![8u8; 3 * PAGE as usize];
    assert_eq!(writer.write(&mut store, &big), Err(StreamError::GrowthFailed));
    assert_eq!(writer.offset(), 80000);
    assert_eq!(writer.capacity(), 2);
    assert_eq!(store.size(), 2);
    assert!(writer.flush().is_ok());
    assert_eq!(writer.offset(), 80000);
}

#[test]
fn writer_grow_remembers_the_new_capacity() {
    let mut store = MemoryStore::new(1, 3).unwrap();
    let mut writer = StableWriter::new(&store);
    assert_eq!(writer.grow(&mut store, 2), Ok(()));
    assert_eq!(writer.capacity(), 3);
    assert_eq!(store.size(), 3);
    assert_eq!(writer.grow(&mut store, 1), Err(StreamError::GrowthFailed));
    assert_eq!(writer.capacity(), 3);
    assert_eq!(store.size(), 3);
}

#[test]
fn writer_with_a_stale_capacity_still_makes_room() {
    let mut store = MemoryStore::new(1, 8).unwrap();
    let mut first = StableWriter::new(&store);
    let mut second = StableWriter::new(&store);
    let page = vec![1u8; PAGE as usize];
    assert_eq!(first.write(&mut store, &page), Ok(PAGE as usize));
    assert_eq!(first.write(&mut store, &[2]), Ok(1));
    assert_eq!(store.size(), 2);
    assert_eq!(second.capacity(), 1);
    let more = vec![3u8; PAGE as usize + 1];
    assert_eq!(second.write(&mut store, &more), Ok(PAGE as usize + 1));
    assert_eq!(store.size(), 3);
    assert_eq!(second.capacity(), 2);
    assert_eq!(second.offset(), PAGE + 1);
    assert_eq!(second.grow(&mut store, 1), Ok(()));
    assert_eq!(second.capacity(), 4);
}

#[test]
fn writer_fills_the_last_page_without_growing() {
    let mut store = MemoryStore::new(1, 1).unwrap();
    let mut writer = StableWriter::new(&store);
    let page = vec![6u8; PAGE as usize];
    assert_eq!(writer.write(&mut store, &page), Ok(PAGE as usize));
    assert_eq!(writer.offset(), PAGE);
    assert_eq!(store.size(), 1);
    assert_eq!(writer.write(&mut store, &[]), Ok(0));
    assert_eq!(writer.write(&mut store, &[1]), Err(StreamError::GrowthFailed));
    assert_eq!(writer.offset(), PAGE);
}

#[test]
fn seeker_moves_only_itself() {
    let store = MemoryStore::new(2, 2).unwrap();
    let mut seeker = StableSeeker::new();
    assert_eq!(seeker.offset(), 0);
    assert_eq!(seeker.seek(&store, SeekFrom::End(-1)), Ok(2 * PAGE - 1));
    assert_eq!(seeker.seek(&store, SeekFrom::Current(2)), Ok(2 * PAGE + 1));
    assert_eq!(seeker.seek(&store, SeekFrom::Start(4)), Ok(4));
    assert_eq!(seeker.seek(&store, SeekFrom::Current(-5)), Err(StreamError::InvalidSeek));
    assert_eq!(seeker.offset(), 4);
    assert_eq!(seeker.seek(&store, SeekFrom::Start(u64::MAX)), Ok(u64::MAX));
    assert_eq!(seeker.seek(&store, SeekFrom::Current(1)), Err(StreamError::OutOfBounds));
    assert_eq!(seeker.offset(), u64::MAX);
    assert_eq!(store.size(), 2);
    assert_eq!(StableSeeker::default().offset(), 0);
}

#[test]
fn composite_keeps_three_offsets() {
    let mut store = MemoryStore::new(1, 4).unwrap();
    let mut memory = StableMemory::new(&store);
    assert_eq!(memory.write(&mut store, &[0, 1, 2, 3, 4, 5, 6, 7]), Ok(8));
    assert_eq!(memory.writer().offset(), 8);
    assert_eq!(memory.reader().offset(), 0);
    assert_eq!(memory.seeker().offset(), 0);
    let mut buf = [0u8; 4];
    assert_eq!(memory.read(&store, &mut buf), Ok(4));
    assert_eq!(buf, [0, 1, 2, 3]);
    assert_eq!(memory.read(&store, &mut buf), Ok(4));
    assert_eq!(buf, [4, 5, 6, 7]);
    assert_eq!(memory.reader().offset(), 8);
    assert_eq!(memory.seek(&store, SeekFrom::End(-1)), Ok(65535));
    assert_eq!(memory.seeker().offset(), 65535);
    assert_eq!(memory.reader().offset(), 8);
    assert_eq!(memory.writer().offset(), 8);
    assert_eq!(memory.seek(&store, SeekFrom::Current(-65536)), Err(StreamError::InvalidSeek));
    assert_eq!(memory.seeker().offset(), 65535);
    assert!(memory.flush().is_ok());
}

#[test]
fn composite_grows_and_snapshots() {
    let mut store = MemoryStore::new(1, 2).unwrap();
    let mut memory = StableMemory::new(&store);
    assert_eq!(StableMemory::size(&store), 1);
    assert_eq!(memory.grow(&mut store, 1), Ok(()));
    assert_eq!(StableMemory::size(&store), 2);
    assert_eq!(memory.writer().capacity(), 2);
    assert_eq!(memory.grow(&mut store, 1), Err(StreamError::GrowthFailed));
    assert_eq!(StableMemory::size(&store), 2);
    memory.write(&mut store, &[5, 6]).unwrap();
    let all = StableMemory::bytes(&store);
    assert_eq!(all.len(), 2 * PAGE as usize);
    assert_eq!(&all[..3], &[5, 6, 0]);
    let big = vec![1u8; 2 * PAGE as usize];
    assert_eq!(memory.write(&mut store, &big), Err(StreamError::GrowthFailed));
    assert_eq!(memory.writer().offset(), 2);
    assert_eq!(StableMemory::bytes(&store), all);
}
