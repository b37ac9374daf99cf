use raftkv::merge::policy::{DeltaMergePolicy, MergeTrigger};
use raftkv::state::{CheckpointMetadata, DeltaInfo, SnapshotMetaState};

#[test]
fn test_priority_chain_over_size_over_time() {
    let mut state = SnapshotMetaState::new();
    state.last_checkpoint = Some(CheckpointMetadata::new(10, 2, 3, 1));
    state.total_delta_bytes = 400 * 1024 * 1024;
    for i in 0..5 {
        state.delta_chain.push(DeltaInfo::new(i * 10, i * 10 + 9, 1024, 2));
    }

    let p = DeltaMergePolicy::default();
    let trigger = p.evaluate(&state, 24 * 60 * 60 + 10);
    assert_eq!(trigger, Some(MergeTrigger::ChainTooLong));
}

#[test]
fn test_size_trigger_when_chain_below_threshold() {
    let mut state = SnapshotMetaState::new();
    state.total_delta_bytes = 300 * 1024 * 1024;

    let p = DeltaMergePolicy::default();
    let trigger = p.evaluate(&state, 1);
    assert_eq!(trigger, Some(MergeTrigger::SizeTooLarge));
}

#[test]
fn test_time_trigger_when_chain_and_size_are_small() {
    let mut state = SnapshotMetaState::new();
    state.last_checkpoint = Some(CheckpointMetadata::new(8, 1, 2, 100));

    let p = DeltaMergePolicy::default();
    let trigger = p.evaluate(&state, 100 + 24 * 60 * 60);
    assert_eq!(trigger, Some(MergeTrigger::TimeWindowExpired));
}

#[test]
fn test_no_trigger() {
    let mut state = SnapshotMetaState::new();
    state.last_checkpoint = Some(CheckpointMetadata::new(8, 1, 2, 100));
    state.total_delta_bytes = 1024;

    let p = DeltaMergePolicy::default();
    let trigger = p.evaluate(&state, 100 + 10);
    assert_eq!(trigger, None);
}

#[test]
fn chain_length_trigger_has_highest_priority() {
    let mut state = SnapshotMetaState::new();
    state.last_checkpoint = Some(CheckpointMetadata::new(20, 3, 8, 1));
    state.total_delta_bytes = 500 * 1024 * 1024;

    for i in 0..5 {
        state.delta_chain.push(DeltaInfo::new(i * 10, i * 10 + 9, 10, 2));
    }

    let p = DeltaMergePolicy::default();
    assert_eq!(p.evaluate(&state, 24 * 60 * 60 + 100), Some(MergeTrigger::ChainTooLong));
}

#[test]
fn size_trigger_works() {
    let mut state = SnapshotMetaState::new();
    state.total_delta_bytes = 300 * 1024 * 1024;

    let p = DeltaMergePolicy::default();
    assert_eq!(p.evaluate(&state, 100), Some(MergeTrigger::SizeTooLarge));
}

#[test]
fn time_trigger_works() {
    let mut state = SnapshotMetaState::new();
    state.last_checkpoint = Some(CheckpointMetadata::new(100, 8, 88, 1));
    state.total_delta_bytes = 1;

    let p = DeltaMergePolicy::default();
    assert_eq!(p.evaluate(&state, 1 + p.checkpoint_interval_secs), Some(MergeTrigger::TimeWindowExpired));
}
