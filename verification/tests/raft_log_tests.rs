use raftkv::storage::engine::IndexBound;
use raftkv::storage::raft_log::{LogId, LogState, RaftEntryLog};
use raftkv::storage::LogEntry;

fn entry(term: u64, index: u64, byte: u8) -> LogEntry {
    LogEntry::new(term, index, vec![byte])
}

fn indices(es: &[LogEntry]) -> Vec<u64> {
    es.iter().map(|e| e.index).collect()
}

#[test]
fn empty_log_reports_nothing() {
    let log = RaftEntryLog::new();
    assert_eq!(log.get_log_state(), LogState { last_purged_log_id: None, last_log_id: None });
    assert!(log.try_get_log_entries(IndexBound::Unbounded, IndexBound::Unbounded).is_empty());
}

#[test]
fn append_replaces_entries_with_the_same_index() {
    let mut log = RaftEntryLog::new();
    log.append(vec![entry(1, 1, 10), entry(1, 2, 20), entry(1, 3, 30)]);
    log.append(vec![entry(2, 2, 21)]);
    let all = log.try_get_log_entries(IndexBound::Unbounded, IndexBound::Unbounded);
    assert_eq!(indices(&all), vec![1, 2, 3]);
    assert_eq!(all[1].term, 2);
    assert_eq!(all[1].payload, vec![21]);
    assert_eq!(log.get_log_state().last_log_id, Some(LogId { term: 1, index: 3 }));
    let mid = log.try_get_log_entries(IndexBound::Excluded(1), IndexBound::Included(2));
    assert_eq!(indices(&mid), vec![2]);
    assert!(log.try_get_log_entries(IndexBound::Included(3), IndexBound::Excluded(3)).is_empty());
}

#[test]
fn truncate_after_drops_later_entries() {
    let mut log = RaftEntryLog::new();
    log.append(vec![entry(1, 1, 1), entry(1, 2, 2), entry(2, 3, 3), entry(2, 4, 4)]);
    log.truncate_after(Some(LogId { term: 1, index: 2 }));
    let all = log.try_get_log_entries(IndexBound::Unbounded, IndexBound::Unbounded);
    assert_eq!(indices(&all), vec![1, 2]);
    assert_eq!(log.get_log_state().last_log_id, Some(LogId { term: 1, index: 2 }));
    log.truncate_after(None);
    assert!(log.try_get_log_entries(IndexBound::Unbounded, IndexBound::Unbounded).is_empty());
    assert_eq!(log.get_log_state().last_log_id, None);
}

#[test]
fn purge_drops_covered_entries_and_records_position() {
    let mut log = RaftEntryLog::new();
    log.append(vec![entry(1, 1, 1), entry(1, 2, 2), entry(2, 3, 3)]);
    log.purge(LogId { term: 1, index: 2 });
    let all = log.try_get_log_entries(IndexBound::Unbounded, IndexBound::Unbounded);
    assert_eq!(indices(&all), vec![3]);
    assert_eq!(
        log.get_log_state(),
        LogState { last_purged_log_id: Some(LogId { term: 1, index: 2 }), last_log_id: Some(LogId { term: 2, index: 3 }) }
    );
    // Purging through the last entry leaves the state pointing at the purge.
    log.purge(LogId { term: 2, index: 3 });
    assert_eq!(
        log.get_log_state(),
        LogState { last_purged_log_id: Some(LogId { term: 2, index: 3 }), last_log_id: Some(LogId { term: 2, index: 3 }) }
    );
}
