use krun_host::reader::Reader;

fn entry(addr: u64, len: u32) -> Vec<u8> {
    let mut bytes = addr.to_le_bytes().to_vec();
    bytes.extend_from_slice(&len.to_le_bytes());
    bytes.extend_from_slice(&[0; 4]);
    bytes
}

#[test]
fn memory_entries_are_little_endian() {
    let bytes = [
        0x08, 0x07, 0x06, 0x05, 0x04, 0x03, 0x02, 0x01, 0x00, 0x10, 0x00, 0x80, 0xff, 0xff, 0xff,
        0xff,
    ];
    let mut reader = Reader::new(&bytes);
    assert_eq!(reader.available_bytes(), 16);
    assert_eq!(reader.read_mem_entry(), Some((0x0102_0304_0506_0708, 0x8000_1000)));
    assert_eq!(reader.available_bytes(), 0);
    assert_eq!(reader.read_mem_entry(), None);
}

#[test]
fn the_largest_values_fit() {
    let bytes = [0xff; 24];
    let mut reader = Reader::new(&bytes);
    assert_eq!(reader.read_mem_entry(), Some((u64::MAX, u32::MAX as usize)));
    assert_eq!(reader.read_fence_id(), Some(u64::MAX));
}

#[test]
fn an_entry_that_is_cut_short_is_not_read() {
    let bytes = [1; 15];
    let mut reader = Reader::new(&bytes);
    assert_eq!(reader.read_mem_entry(), None);
    assert_eq!(reader.available_bytes(), 15);
    assert_eq!(reader.read_fence_id(), Some(0x0101_0101_0101_0101));
    assert_eq!(reader.read_fence_id(), None);
    assert_eq!(reader.available_bytes(), 7);
}

#[test]
fn entries_read_back_in_order() {
    let mut bytes = entry(0x1000, 4096);
    bytes.extend(entry(u64::MAX, 1));
    bytes.extend(entry(0, u32::MAX));
    bytes.push(9);
    let mut reader = Reader::new(&bytes);
    assert_eq!(
        reader.read_mem_entries(3),
        Some(vec![(0x1000, 4096), (u64::MAX, 1), (0, u32::MAX as usize)])
    );
    assert_eq!(reader.available_bytes(), 1);
}

#[test]
fn a_list_that_is_cut_short_is_refused() {
    let mut bytes = entry(0x1000, 4096);
    bytes.extend(entry(0x2000, 4096));
    bytes.truncate(31);
    let mut reader = Reader::new(&bytes);
    assert_eq!(reader.read_mem_entries(2), None);
    assert_eq!(reader.available_bytes(), 15);
    let mut reader = Reader::new(&bytes);
    assert_eq!(reader.read_mem_entries(u32::MAX), None);
}

#[test]
fn fence_ids_read_back_in_order() {
    let ids = [7u64, 0, u64::MAX];
    let bytes: Vec<u8> = ids.iter().flat_map(|id| id.to_le_bytes()).collect();
    let mut reader = Reader::new(&bytes);
    assert_eq!(reader.read_fence_ids(3), Some(ids.to_vec()));
    let mut reader = Reader::new(&bytes);
    assert_eq!(reader.read_fence_ids(0), Some(vec![]));
    assert_eq!(reader.available_bytes(), 24);
    assert_eq!(reader.read_fence_ids(4), None);
    assert_eq!(reader.available_bytes(), 0);
}

#[test]
fn exact_reads_take_all_or_nothing() {
    let bytes = [1, 2, 3];
    let mut reader = Reader::new(&bytes);
    assert_eq!(reader.read_exact(4), None);
    assert_eq!(reader.read_exact(2), Some(vec![1, 2]));
    assert_eq!(reader.read_exact(0), Some(vec![]));
    assert_eq!(reader.read_exact(1), Some(vec![3]));
}
