//! The library's record encodings agree byte for byte with postcard's
//! encoding of the same records (a struct or tuple is its fields in order,
//! an enum variant its index followed by its fields).

use raftkv::snapshot::delta::{encode_delta_entry, encode_delta_list};
use raftkv::snapshot::encode_envelope;
use raftkv::snapshot::metadata::CheckpointMetadata;
use raftkv::types::{DeltaEntry, DeltaMetadata, KVRequest, SnapshotFormat};

#[test]
fn kv_request_encoding_matches_postcard() {
    let put = KVRequest::Put { key: "alpha".to_string(), value: vec![1, 2, 3, 200] };
    assert_eq!(put.encode(), postcard::to_stdvec(&(0u32, "alpha", vec![1u8, 2, 3, 200])).unwrap());
    let del = KVRequest::Delete { key: "alpha".to_string() };
    assert_eq!(del.encode(), postcard::to_stdvec(&(1u32, "alpha")).unwrap());
}

#[test]
fn delta_entry_encoding_matches_postcard() {
    let a = DeltaEntry::new(2, 300, vec![9, 8]);
    let b = DeltaEntry::new(3, 301, vec![]);
    assert_eq!(encode_delta_entry(&a), postcard::to_stdvec(&(2u64, 300u64, vec![9u8, 8])).unwrap());
    let list = vec![(2u64, 300u64, vec![9u8, 8]), (3u64, 301u64, vec![])];
    assert_eq!(encode_delta_list(&[a, b]), postcard::to_stdvec(&list).unwrap());
}

#[test]
fn checkpoint_metadata_encoding_matches_postcard() {
    let m = CheckpointMetadata::new(40, 7, 99, "/data/cp".to_string()).with_crc32(0xdeadbeef).with_compressed_size(1 << 20);
    let expected = postcard::to_stdvec(&(40u64, 7u64, 99u64, m.timestamp, 0xdeadbeefu32, "/data/cp", 1u64 << 20)).unwrap();
    assert_eq!(m.serialize(), expected);
}

#[test]
fn envelope_encoding_matches_postcard() {
    let payload = vec![5u8; 130];
    let delta = DeltaMetadata::new(SnapshotFormat::Delta { base_index: 10, entry_count: 2 }, 130, 1_700_000_000)
        .with_file_path("/data/delta.zst".to_string());
    let expected = postcard::to_stdvec(&(
        ((1u32, 10u64, 2u64), 130u64, 1_700_000_000u64, Some("/data/delta.zst"), 2u16),
        payload.clone(),
    ))
    .unwrap();
    assert_eq!(encode_envelope(&delta, &payload), expected);

    let cp = CheckpointMetadata::new(40, 7, 99, "/data/cp".to_string()).with_crc32(1).with_compressed_size(77);
    let full = DeltaMetadata::new(SnapshotFormat::Full { checkpoint_meta: cp.clone() }, 4, 12);
    let expected = postcard::to_stdvec(&(
        ((0u32, (40u64, 7u64, 99u64, cp.timestamp, 1u32, "/data/cp", 77u64)), 4u64, 12u64, None::<&str>, 2u16),
        vec![1u8, 2, 3, 4],
    ))
    .unwrap();
    assert_eq!(encode_envelope(&full, &vec![1u8, 2, 3, 4]), expected);
}
