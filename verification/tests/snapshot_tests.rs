use raftkv::error::RaftError;
use raftkv::network::{snapshot_chunks, SnapshotChunk};
use raftkv::snapshot::builder::{
    archive_file_name, delta_file_name, RaftSnapshotBuilder, SnapshotBuildConfig, SnapshotKind,
};
use raftkv::snapshot::consistency::{
    be_bytes, manifest_bytes, parse_sequence_from_manifest_bytes, resolve_sequence_number, PersistedKeySequenceNumberReader,
    PersistedKeySequenceNumberWriter,
};
use raftkv::snapshot::delta::DeltaSnapshotCodec;
use raftkv::snapshot::metadata::CheckpointMetadata;
use raftkv::snapshot::restore::SnapshotRestorer;
use raftkv::snapshot::{decode_delta_entries_from_payload, decode_snapshot_payload, encode_envelope, DecodedSnapshotPayload};
use raftkv::state::{CheckpointMetadata as PersistedCheckpointMetadata, SnapshotMetaState};
use raftkv::types::{DeltaEntry, DeltaMetadata, SnapshotFormat};

#[test]
fn test_delta_codec_roundtrip() {
    let entries = vec![
        DeltaEntry::new(1, 10, postcard::to_stdvec(&"hello").unwrap()),
        DeltaEntry::new(1, 11, postcard::to_stdvec(&"world").unwrap()),
    ];

    let compressed = DeltaSnapshotCodec::encode_entries(&entries).unwrap();
    assert!(!compressed.is_empty());

    let decoded = DeltaSnapshotCodec::decode_entries(&compressed).unwrap();
    assert_eq!(entries, decoded);
}

#[test]
fn test_crc32_verification() {
    let data = b"abc";
    let mut digest = crc_fast::Digest::new(crc_fast::CrcAlgorithm::Crc32IsoHdlc);
    digest.update(data);
    let crc = digest.finalize() as u32;
    assert!(SnapshotRestorer::verify_crc32(data, crc));
    assert!(!SnapshotRestorer::verify_crc32(data, crc.wrapping_add(1)));
}

#[test]
fn crc32_known_value_and_integrity_check() {
    assert!(SnapshotRestorer::verify_crc32(b"123456789", 0xcbf43926));
    let meta = CheckpointMetadata::new(1, 1, 0, "d".to_string()).with_crc32(0xcbf43926);
    assert!(SnapshotRestorer::check_integrity(b"123456789", &meta).is_ok());
    assert!(SnapshotRestorer::check_integrity(b"12345678", &meta).is_err());
    let unset = CheckpointMetadata::new(1, 1, 0, "d".to_string());
    assert!(SnapshotRestorer::check_integrity(b"anything", &unset).is_ok());
    let restored = SnapshotRestorer::restored_metadata(&meta, "target/restored/x".to_string());
    assert_eq!(restored.checkpoint_dir, "target/restored/x");
    assert_eq!(restored.crc32, 0xcbf43926);
}

#[test]
fn decode_snapshot_payload_full_and_delta() {
    let delta_entries = vec![DeltaEntry::new(1, 2, postcard::to_stdvec(&"x").unwrap())];
    let compressed = DeltaSnapshotCodec::encode_entries(&delta_entries).unwrap();
    let metadata = DeltaMetadata::new(
        SnapshotFormat::Delta { base_index: 1, entry_count: delta_entries.len() as u64 },
        compressed.len() as u64,
        1,
    );
    let delta_bytes = encode_envelope(&metadata, &compressed);
    assert!(matches!(decode_snapshot_payload(&delta_bytes).unwrap(), Some(DecodedSnapshotPayload::Delta { .. })));
    assert_eq!(decode_delta_entries_from_payload(&delta_bytes).unwrap().unwrap(), delta_entries);

    let full = DeltaMetadata::new(
        SnapshotFormat::Full { checkpoint_meta: CheckpointMetadata::new(1, 1, 0, "/tmp".to_string()) },
        3,
        2,
    );
    let full_bytes = encode_envelope(&full, &vec![1, 2, 3]);
    assert!(matches!(decode_snapshot_payload(&full_bytes).unwrap(), Some(DecodedSnapshotPayload::Full(_))));
    assert!(decode_delta_entries_from_payload(&full_bytes).unwrap().is_none());
    assert!(decode_snapshot_payload(&[1, 2, 3]).unwrap().is_none());
}

#[test]
fn builder_chooses_delta_or_full() {
    let builder = RaftSnapshotBuilder::new_with_config(SnapshotBuildConfig::default());
    let entries = vec![DeltaEntry::new(1, 2, vec![1, 2])];
    let mut state = SnapshotMetaState::new();
    assert!(matches!(builder.choose_kind(&state, &entries, 100).unwrap(), SnapshotKind::Full));
    state.last_checkpoint = Some(PersistedCheckpointMetadata::new(1, 1, 0, 90));
    match builder.choose_kind(&state, &entries, 100).unwrap() {
        SnapshotKind::Delta { compressed, base_index, entry_count } => {
            assert_eq!(base_index, 1);
            assert_eq!(entry_count, 1);
            assert_eq!(DeltaSnapshotCodec::decode_entries(&compressed).unwrap(), entries);
        }
        SnapshotKind::Full => panic!("expected a delta"),
    }
    // A day and more after the checkpoint, a small delta is not taken.
    assert!(matches!(builder.choose_kind(&state, &entries, 90 + 86401).unwrap(), SnapshotKind::Full));
    // No entries: full.
    assert!(matches!(builder.choose_kind(&state, &[], 100).unwrap(), SnapshotKind::Full));
}

#[test]
fn snapshot_ids_and_file_names() {
    assert_eq!(RaftSnapshotBuilder::snapshot_id("delta", 12, 34), "delta-12-34");
    assert_eq!(RaftSnapshotBuilder::snapshot_id("full", 0, 5), "full-0-5");
    assert_eq!(delta_file_name(5, "12"), "delta-5-12.bin.zst");
    assert_eq!(archive_file_name(9), "snapshot-9.tar.zst");
}

#[test]
fn restore_archive_selection() {
    let meta = CheckpointMetadata::new(1, 1, 0, "/tmp".to_string());
    let full = RaftSnapshotBuilder::full_payload(meta, 3, &vec![7, 8, 9], 2);
    assert_eq!(RaftSnapshotBuilder::restore_archive(&full).unwrap(), vec![7, 8, 9]);
    let delta = RaftSnapshotBuilder::delta_payload(&vec![1], 0, 1, 1, "p".to_string());
    assert!(matches!(RaftSnapshotBuilder::restore_archive(&delta), Err(RaftError::Snapshot(_))));
    assert_eq!(RaftSnapshotBuilder::restore_archive(&[1, 2]).unwrap(), vec![1, 2]);
}

#[test]
fn build_config_sources() {
    let c = SnapshotBuildConfig::default();
    assert_eq!((c.node_id, c.node_addr.as_str(), c.current_term), (1, "127.0.0.1:50051", 0));
    let m = SnapshotBuildConfig::from_members(&vec![(3, "10.0.0.3:1".to_string()), (4, "x".to_string())]).unwrap();
    assert_eq!((m.node_id, m.node_addr.as_str(), m.current_term), (3, "10.0.0.3:1", 0));
    match SnapshotBuildConfig::from_members(&vec![]) {
        Err(RaftError::Snapshot(msg)) => assert_eq!(msg, "membership json contains no nodes"),
        other => panic!("unexpected {:?}", other),
    }
    let s = SnapshotBuildConfig::from_settings(Some("7"), None, Some("x"));
    assert_eq!((s.node_id, s.node_addr.as_str(), s.current_term), (7, "127.0.0.1:50051", 0));
    let s = SnapshotBuildConfig::from_settings(Some("-1"), Some("a:1".to_string()), Some("+9"));
    assert_eq!((s.node_id, s.node_addr.as_str(), s.current_term), (1, "a:1", 9));
}

#[test]
fn sequence_number_persistence() {
    let key = PersistedKeySequenceNumberWriter::encode(12345);
    assert_eq!(key, 12345u64.to_be_bytes().to_vec());
    assert_eq!(PersistedKeySequenceNumberReader::decode(Some(key)).unwrap(), 12345);
    assert_eq!(PersistedKeySequenceNumberReader::decode(Some(b"777".to_vec())).unwrap(), 777);
    assert!(PersistedKeySequenceNumberReader::decode(Some(b"77a".to_vec())).is_err());
    assert!(PersistedKeySequenceNumberReader::decode(Some(b"99999999999999999999".to_vec())).is_err());
    match PersistedKeySequenceNumberReader::decode(None) {
        Err(RaftError::Snapshot(m)) => assert_eq!(m, "persisted consistency key is missing"),
        other => panic!("unexpected {:?}", other),
    }
    assert_eq!(be_bytes(1), vec![0, 0, 0, 0, 0, 0, 0, 1]);
}

#[test]
fn manifest_roundtrip() {
    let m = manifest_bytes(1, 424242);
    let mut expected = Vec::new();
    expected.extend_from_slice(&1u32.to_be_bytes());
    expected.extend_from_slice(&1u64.to_be_bytes());
    expected.extend_from_slice(&424242u64.to_be_bytes());
    assert_eq!(m, expected);
    assert_eq!(parse_sequence_from_manifest_bytes(&m), Some(424242));
    assert_eq!(parse_sequence_from_manifest_bytes(&m[..19]), None);
}

#[test]
fn sequence_number_priority() {
    assert_eq!(resolve_sequence_number(Some(777), Err(RaftError::Other("x".into())), Ok(Some(1))).unwrap(), 777);
    assert_eq!(resolve_sequence_number(None, Ok(5), Ok(Some(1))).unwrap(), 5);
    assert_eq!(resolve_sequence_number(None, Err(RaftError::Other("x".into())), Ok(Some(424242))).unwrap(), 424242);
    assert!(resolve_sequence_number(None, Err(RaftError::Other("x".into())), Ok(None)).is_err());
}

#[test]
fn snapshot_chunking() {
    assert_eq!(snapshot_chunks(0, None), vec![SnapshotChunk { offset: 0, end: 0, done: true }]);
    assert_eq!(
        snapshot_chunks(5, Some(2)),
        vec![
            SnapshotChunk { offset: 0, end: 2, done: false },
            SnapshotChunk { offset: 2, end: 4, done: false },
            SnapshotChunk { offset: 4, end: 5, done: true },
        ]
    );
    assert_eq!(snapshot_chunks(3, Some(0)).len(), 3);
    assert_eq!(snapshot_chunks(10, None), vec![SnapshotChunk { offset: 0, end: 10, done: true }]);
}

#[test]
fn unreadable_delta_payload_reports_its_error() {
    let meta = DeltaMetadata::new(SnapshotFormat::Delta { base_index: 1, entry_count: 1 }, 3, 0);
    let bytes = encode_envelope(&meta, &vec![1u8, 2, 3]);
    match decode_delta_entries_from_payload(&bytes) {
        Err(RaftError::Snapshot(m)) => assert_eq!(m, "read delta payload failed"),
        _ => panic!("expected a snapshot error"),
    }
    match decode_snapshot_payload(&bytes) {
        Err(RaftError::Snapshot(m)) => assert_eq!(m, "read delta payload failed"),
        _ => panic!("expected a snapshot error"),
    }
    let frame = zstd::encode_all(&[0xffu8][..], 3).unwrap();
    match DeltaSnapshotCodec::decode_entries(&frame) {
        Err(RaftError::Snapshot(m)) => assert_eq!(m, "decode delta entries failed"),
        _ => panic!("expected a snapshot error"),
    }
}

#[test]
fn checkpoint_metadata_at_given_time() {
    let m = CheckpointMetadata::new_at(100, 5, 12345, "/tmp/checkpoint".to_string(), 1_700_000_000);
    assert_eq!((m.applied_index, m.term, m.sequence_number, m.timestamp), (100, 5, 12345, 1_700_000_000));
    assert_eq!((m.crc32, m.compressed_size), (0, 0));
    assert_eq!(m.checkpoint_dir, "/tmp/checkpoint");
    let now = CheckpointMetadata::new(1, 1, 1, "/x".to_string());
    assert!(now.timestamp > 0);
}

#[test]
fn delta_codec_never_fails_to_encode() {
    let es = vec![DeltaEntry::new(1, 1, vec![]), DeltaEntry::new(1, 2, vec![7; 4096])];
    let c = DeltaSnapshotCodec::encode_entries(&es).unwrap();
    assert_eq!(DeltaSnapshotCodec::decode_entries(&c).unwrap(), es);
    assert!(DeltaSnapshotCodec::encode_entries(&[]).is_ok());
}
