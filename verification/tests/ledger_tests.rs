use file_tinder::domain::Decision;
use file_tinder::error::FileTinderError;
use file_tinder::ledger::DecisionLedger;

#[test]
fn record_then_statistics() {
    let mut ledger = DecisionLedger::new(3);
    assert!(ledger.record(0, Decision::Trash).is_ok());
    assert!(ledger.record(1, Decision::Keep).is_ok());
    let stats = ledger.statistics();
    assert_eq!(stats.total_files, 3);
    assert_eq!(stats.kept, 1);
    assert_eq!(stats.trashed, 1);
}

#[test]
fn undo_returns_most_recent_entry_whatever_index() {
    let mut ledger = DecisionLedger::new(3);
    ledger.record(2, Decision::Keep).unwrap();
    ledger.record(0, Decision::Trash).unwrap();
    let undone = ledger.undo().unwrap();
    assert_eq!(undone, (0, Decision::Trash));
    let undone = ledger.undo().unwrap();
    assert_eq!(undone, (2, Decision::Keep));
}

#[test]
fn undo_on_empty_history_fails() {
    let mut ledger = DecisionLedger::new(2);
    let result = ledger.undo();
    assert_eq!(result, Err(FileTinderError::NothingToUndo));
}

#[test]
fn full_undo_restores_fresh_statistics() {
    let fresh = DecisionLedger::new(4).statistics();
    let mut ledger = DecisionLedger::new(4);
    ledger.record(0, Decision::Keep).unwrap();
    ledger.record(1, Decision::Trash).unwrap();
    ledger.record(1, Decision::Keep).unwrap();
    ledger.record(3, Decision::Trash).unwrap();
    ledger.undo().unwrap();
    ledger.undo().unwrap();
    ledger.undo().unwrap();
    ledger.undo().unwrap();
    assert_eq!(ledger.statistics(), fresh);
    assert_eq!(fresh.kept, 0);
    assert_eq!(fresh.trashed, 0);
    assert_eq!(fresh.total_files, 4);
}

#[test]
fn redecide_then_undo_restores_earlier_decision() {
    let mut ledger = DecisionLedger::new(2);
    ledger.record(0, Decision::Keep).unwrap();
    ledger.record(0, Decision::Trash).unwrap();
    ledger.undo().unwrap();
    let stats = ledger.statistics();
    assert_eq!(stats.kept, 1);
    assert_eq!(stats.trashed, 0);
}

#[test]
fn record_at_list_length_fails_and_changes_nothing() {
    let mut ledger = DecisionLedger::new(3);
    ledger.record(1, Decision::Keep).unwrap();
    let before = ledger.statistics();
    let result = ledger.record(3, Decision::Trash);
    assert_eq!(result, Err(FileTinderError::InvalidIndex { index: 3, max: 2 }));
    assert_eq!(ledger.statistics(), before);
}

#[test]
fn record_on_empty_list_fails() {
    let mut ledger = DecisionLedger::new(0);
    let result = ledger.record(0, Decision::Keep);
    assert_eq!(result, Err(FileTinderError::InvalidIndex { index: 0, max: 0 }));
}

#[test]
fn latest_entry_per_index_wins() {
    let mut ledger = DecisionLedger::new(1);
    ledger.record(0, Decision::Keep).unwrap();
    ledger.record(0, Decision::Keep).unwrap();
    ledger.record(0, Decision::Trash).unwrap();
    let stats = ledger.statistics();
    assert_eq!(stats.kept, 0);
    assert_eq!(stats.trashed, 1);
}
