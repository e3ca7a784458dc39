use bytes::Bytes;
use mem_blob_store::buffer::{MemFile, MutableMemFile};
use mem_blob_store::error::{data_too_large, StoreError};
use mem_blob_store::store::{export_chunks, Store, EXPORT_CHUNK_SIZE};
use mem_blob_store::tree::{build_outboard, outboard_size, BLOCK_SIZE_LOG};

fn hash_of(data: &[u8]) -> mem_blob_store::hash::Hash {
    let (_, root) = bao_tree::io::outboard(data, bao_tree::BlockSize(BLOCK_SIZE_LOG));
    mem_blob_store::hash::Hash::from_bytes(*root.as_bytes())
}

fn read_all(f: &MemFile) -> Vec<u8> {
    f.read_at(0, f.len() as usize).to_vec()
}

#[test]
fn hello_world_scenario() {
    let mut store = Store::new();
    let h = store.import_bytes(Bytes::from_static(b"hello world"));
    let e = store.get(&h).unwrap();
    assert_eq!(e.size(), 11);
    let out = store.export_source(&h, true, true).unwrap();
    assert_eq!(&out[..], b"hello world");
    assert_eq!(out.len(), 11);
}

#[test]
fn import_round_trip() {
    for len in [0usize, 1, 1024, 16384, 16385, 100_000] {
        let data: Vec<u8> = (0..len).map(|i| (i % 251) as u8).collect();
        let mut store = Store::new();
        let h = store.import_bytes(Bytes::from(data.clone()));
        assert!(h == hash_of(&data));
        let e = store.get(&h).unwrap();
        assert_eq!(read_all(&e.data_reader()), data);
        assert_eq!(e.size(), len as u64);
        let ob = e.outboard();
        assert!(ob.root == h);
        let (expected_ob, _) = bao_tree::io::outboard(&data, bao_tree::BlockSize(BLOCK_SIZE_LOG));
        assert_eq!(read_all(&ob.data), expected_ob);
        assert_eq!(e.available_ranges(), if len > 0 { vec![(0, len as u64)] } else { vec![] });
    }
}

#[test]
fn hash_differs_for_different_content() {
    let mut store = Store::new();
    let a = store.import_bytes(Bytes::from_static(b"a"));
    let b = store.import_bytes(Bytes::from_static(b"b"));
    assert!(a != b);
    assert_eq!(store.blobs().len(), 2);
}

#[test]
fn complete_and_partial_stay_disjoint() {
    let mut store = Store::new();
    let h = hash_of(b"some content");
    let p = store.get_or_create_partial(h, 12).unwrap();
    assert_eq!(store.partial_blobs().len(), 1);
    assert!(store.blobs().is_empty());
    store.insert_complete(p);
    assert_eq!(store.blobs().len(), 1);
    assert!(store.partial_blobs().is_empty());
    assert!(store.get_partial(&h).is_none());
    // a complete hash gets no second, partial entry
    assert_eq!(store.get_or_create_partial(h, 12).unwrap_err(), StoreError::InvalidInput);
    assert!(store.partial_blobs().is_empty());
}

#[test]
fn import_drops_partial_of_same_hash() {
    let mut store = Store::new();
    let h = hash_of(b"xyz");
    store.get_or_create_partial(h, 3).unwrap();
    let h2 = store.import_bytes(Bytes::from_static(b"xyz"));
    assert!(h == h2);
    assert!(store.partial_blobs().is_empty());
    assert_eq!(store.blobs().len(), 1);
}

#[test]
fn promotion_is_seen_before_and_after() {
    let mut store = Store::new();
    let content = b"promote me".to_vec();
    let h = hash_of(&content);
    store.get_or_create_partial(h, content.len() as u64).unwrap();
    store.write_partial(&h, 0, &content).unwrap();
    let before = store.get(&h).unwrap();
    assert_eq!(read_all(&before.data_reader()), content);
    assert!(!before.data_reader().is_immutable_exec());
    assert!(before.available_ranges().is_empty());
    let p = store.get_partial(&h).unwrap();
    store.insert_complete(p);
    let after = store.get(&h).unwrap();
    assert!(after.data_reader().is_immutable_exec());
    assert_eq!(read_all(&after.data_reader()), content);
    assert_eq!(after.size(), content.len() as u64);
    assert!(store.get_partial(&h).is_none());
}

#[test]
fn promotion_uses_store_buffers_over_stale_handle() {
    let mut store = Store::new();
    let h = hash_of(b"abcd");
    let stale = store.get_or_create_partial(h, 4).unwrap();
    store.write_partial(&h, 0, b"abcd").unwrap();
    store.write_partial_outboard(&h, 0, &[4, 0, 0, 0, 0, 0, 0, 0]).unwrap();
    store.insert_complete(stale);
    let e = store.get(&h).unwrap();
    assert_eq!(read_all(&e.data_reader()), b"abcd".to_vec());
    assert_eq!(read_all(&e.outboard().data), vec![4, 0, 0, 0, 0, 0, 0, 0]);
}

#[test]
fn promotion_of_detached_entry_uses_its_buffers() {
    let mut store = Store::new();
    let h = hash_of(b"zz");
    let p = store.get_or_create_partial(h, 2).unwrap();
    let mut other = Store::new();
    other.insert_complete(p);
    let e = other.get(&h).unwrap();
    assert_eq!(read_all(&e.data_reader()), vec![0, 0]);
    assert!(e.hash() == h);
}

#[test]
fn outboard_sizes() {
    assert_eq!(outboard_size(0), 8);
    assert_eq!(outboard_size(16384), 8);
    assert_eq!(outboard_size(16385), 72);
    assert_eq!(outboard_size(3 * 16384), 136);
    assert_eq!(outboard_size(1000), outboard_size(1000));
    for n in [0u64, 1, 16384, 16385, 1 << 20, 123_456_789] {
        assert_eq!(
            outboard_size(n),
            bao_tree::io::outboard_size(n, bao_tree::BlockSize(BLOCK_SIZE_LOG))
        );
    }
}

#[test]
fn partial_allocation_sizes() {
    let mut store = Store::new();
    let h = hash_of(b"whatever");
    let p = store.get_or_create_partial(h, 40_000).unwrap();
    assert_eq!(p.size(), 40_000);
    assert_eq!(p.data_writer().len(), 40_000);
    assert_eq!(p.outboard_mut().data.len(), outboard_size(40_000));
    assert_eq!(p.outboard().data.len(), 136);
    assert!(p.hash() == h);
    assert!(p.outboard().root == h);
    assert!(p.available_ranges().is_empty());
    assert!(read_all(&p.data_reader()).iter().all(|b| *b == 0));
}

#[test]
fn reallocation_discards_written_bytes() {
    let mut store = Store::new();
    let h = hash_of(b"again");
    store.get_or_create_partial(h, 5).unwrap();
    store.write_partial(&h, 0, b"again").unwrap();
    store.get_or_create_partial(h, 5).unwrap();
    let p = store.get_partial(&h).unwrap();
    assert_eq!(read_all(&p.data_reader()), vec![0; 5]);
}

#[test]
fn write_partial_errors() {
    let mut store = Store::new();
    let h = hash_of(b"nothing");
    assert_eq!(store.write_partial(&h, 0, b"x"), Err(StoreError::NotFound));
    assert_eq!(store.write_partial_outboard(&h, 0, b"x"), Err(StoreError::NotFound));
    store.get_or_create_partial(h, 2).unwrap();
    assert_eq!(store.write_partial(&h, u64::MAX, b"x"), Err(StoreError::InvalidInput));
    assert_eq!(read_all(&store.get(&h).unwrap().data_reader()), vec![0, 0]);
}

#[test]
fn export_validation() {
    let mut store = Store::new();
    let h = store.import_bytes(Bytes::from_static(b"exported"));
    assert_eq!(store.export_source(&h, false, true).unwrap_err(), StoreError::InvalidInput);
    assert_eq!(store.export_source(&h, true, false).unwrap_err(), StoreError::InvalidInput);
    let unknown = hash_of(b"unknown");
    assert_eq!(store.export_source(&unknown, true, true).unwrap_err(), StoreError::NotFound);
    assert_eq!(store.export_source(&unknown, false, true).unwrap_err(), StoreError::InvalidInput);
    let partial = hash_of(b"partial");
    store.get_or_create_partial(partial, 3).unwrap();
    assert_eq!(store.export_source(&partial, true, true).unwrap_err(), StoreError::NotFound);
    assert_eq!(&store.export_source(&h, true, true).unwrap()[..], b"exported");
}

#[test]
fn export_chunk_ranges() {
    assert!(export_chunks(0).is_empty());
    assert_eq!(export_chunks(11), vec![(0, 11)]);
    assert_eq!(export_chunks(EXPORT_CHUNK_SIZE), vec![(0, EXPORT_CHUNK_SIZE)]);
    let n = 3 * EXPORT_CHUNK_SIZE + 5;
    assert_eq!(
        export_chunks(n),
        vec![
            (0, EXPORT_CHUNK_SIZE),
            (EXPORT_CHUNK_SIZE, 2 * EXPORT_CHUNK_SIZE),
            (2 * EXPORT_CHUNK_SIZE, 3 * EXPORT_CHUNK_SIZE),
            (3 * EXPORT_CHUNK_SIZE, n)
        ]
    );
}

#[test]
fn snapshot_is_stable() {
    let mut store = Store::new();
    store.import_bytes(Bytes::from_static(b"first"));
    let snapshot = store.blobs();
    let h = store.import_bytes(Bytes::from_static(b"second"));
    assert_eq!(snapshot.len(), 1);
    assert!(snapshot.iter().all(|x| *x != h));
    assert_eq!(store.blobs().len(), 2);
    assert!(store.roots().is_empty());
}

#[test]
fn complete_data_is_read_only() {
    let mut store = Store::new();
    let h = store.import_bytes(Bytes::from_static(b"frozen"));
    let mut reader = store.get(&h).unwrap().data_reader();
    assert_eq!(reader.write_at(0, b"X"), Err(StoreError::ReadOnlyViolation));
    assert_eq!(reader.write_bytes_at(0, &Bytes::from_static(b"X")), Err(StoreError::ReadOnlyViolation));
    assert_eq!(reader.set_len(1), Err(StoreError::ReadOnlyViolation));
    assert_eq!(read_all(&reader), b"frozen".to_vec());
    let mut ob = store.get(&h).unwrap().outboard();
    assert_eq!(ob.data.write_at(0, b"X"), Err(StoreError::ReadOnlyViolation));
    assert_eq!(read_all(&store.get(&h).unwrap().data_reader()), b"frozen".to_vec());
    assert_eq!(reader.sync(), Ok(()));
}

#[test]
fn validate_is_unimplemented() {
    let store = Store::new();
    assert_eq!(store.validate(), Err(StoreError::Unimplemented));
}

#[test]
fn data_too_large_error() {
    assert_eq!(data_too_large(), StoreError::DataTooLarge);
}

#[test]
fn get_absent_is_none() {
    let store = Store::new();
    let h = hash_of(b"absent");
    assert!(store.get(&h).is_none());
    assert!(store.get_partial(&h).is_none());
}

#[test]
fn build_outboard_matches_bao() {
    let data = Bytes::from(vec![7u8; 50_000]);
    let ob = build_outboard(&data);
    let (expected, root) = bao_tree::io::outboard(&data, bao_tree::BlockSize(BLOCK_SIZE_LOG));
    assert_eq!(ob.root.as_bytes(), *root.as_bytes());
    assert_eq!(read_all(&ob.data), expected);
    assert_eq!(ob.tree.size(), 50_000);
    let mut store = Store::new();
    let h = store.insert_complete_data(data, ob);
    assert!(h == hash_of(&vec![7u8; 50_000]));
}

#[test]
fn mutable_file_write_extends_with_zeros() {
    let mut f = MutableMemFile::with_capacity(4);
    assert_eq!(f.len(), 0);
    f.write_at(3, b"ab").unwrap();
    assert_eq!(&f.read_at(0, 100)[..], &[0, 0, 0, b'a', b'b']);
    f.write_at(1, b"xyz").unwrap();
    assert_eq!(&f.read_at(0, 100)[..], &[0, b'x', b'y', b'z', b'b']);
    f.write_at(4, b"").unwrap();
    assert_eq!(f.len(), 5);
    f.write_bytes_at(5, &Bytes::from_static(b"!")).unwrap();
    assert_eq!(&f.read_at(4, 2)[..], b"b!");
    assert_eq!(f.write_at(u64::MAX, b"q"), Err(StoreError::InvalidInput));
    assert_eq!(f.len(), 6);
}

#[test]
fn mutable_file_set_len_and_freeze() {
    let mut f = MutableMemFile::zeroed(3);
    f.write_at(0, b"abc").unwrap();
    f.set_len(5).unwrap();
    assert_eq!(&f.read_at(0, 10)[..], b"abc\0\0");
    f.set_len(2).unwrap();
    assert_eq!(f.len(), 2);
    assert_eq!(f.sync(), Ok(()));
    let frozen = f.freeze();
    assert_eq!(&frozen[..], b"ab");
}

#[test]
fn reads_are_clamped() {
    let file = MemFile::Immutable(Bytes::from_static(b"0123456789"));
    assert_eq!(&file.read_at(2, 3)[..], b"234");
    assert_eq!(&file.read_at(8, 5)[..], b"89");
    assert!(file.read_at(10, 5).is_empty());
    assert!(file.read_at(u64::MAX, usize::MAX).is_empty());
    assert_eq!(&file.read_at(1, usize::MAX)[..], b"123456789");
    assert_eq!(file.len(), 10);
    let m = MemFile::Mutable(MutableMemFile::zeroed(4));
    assert_eq!(&m.read_at(3, 5)[..], &[0]);
    assert_eq!(&m.to_bytes()[..], &[0, 0, 0, 0]);
}

#[test]
fn mutable_memfile_accepts_writes() {
    let mut m = MemFile::Mutable(MutableMemFile::with_capacity(0));
    m.write_at(0, b"hi").unwrap();
    m.set_len(3).unwrap();
    assert_eq!(&m.to_bytes()[..], b"hi\0");
    assert!(!m.is_immutable_exec());
}
