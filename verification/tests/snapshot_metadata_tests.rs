use raftkv::snapshot::metadata::CheckpointMetadata;

#[test]
fn test_checkpoint_metadata_creation() {
    let meta = CheckpointMetadata::new(100, 5, 12345, "/tmp/checkpoint".to_string());

    assert_eq!(meta.applied_index, 100);
    assert_eq!(meta.term, 5);
    assert_eq!(meta.sequence_number, 12345);
    assert!(meta.timestamp > 0);
}

#[test]
fn test_checkpoint_metadata_with_builder() {
    let meta = CheckpointMetadata::new(100, 5, 12345, "/tmp/checkpoint".to_string())
        .with_crc32(0xdeadbeef)
        .with_compressed_size(1024000);

    assert_eq!(meta.crc32, 0xdeadbeef);
    assert_eq!(meta.compressed_size, 1024000);
}

#[test]
fn test_checkpoint_metadata_serialization() {
    let original = CheckpointMetadata::new(100, 5, 12345, "/tmp/checkpoint".to_string())
        .with_crc32(0xdeadbeef)
        .with_compressed_size(1024000);

    let serialized = original.serialize();
    let deserialized = CheckpointMetadata::deserialize(&serialized).unwrap();

    assert_eq!(deserialized.applied_index, 100);
    assert_eq!(deserialized.term, 5);
    assert_eq!(deserialized.crc32, 0xdeadbeef);
    assert_eq!(deserialized.compressed_size, 1024000);
}

#[test]
fn test_checkpoint_metadata_consistency_verification() {
    let meta = CheckpointMetadata::new(100, 5, 12345, "/tmp/checkpoint".to_string());

    assert!(meta.verify_consistency(100));
    assert!(!meta.verify_consistency(99));
    assert!(!meta.verify_consistency(101));
}

#[test]
fn test_checkpoint_metadata_dir_name() {
    let meta = CheckpointMetadata::new(100, 5, 12345, "/tmp/checkpoint".to_string());
    let dir_name = meta.dir_name();

    assert!(dir_name.starts_with("checkpoint_"));
    assert!(dir_name.len() > "checkpoint_".len());
}
