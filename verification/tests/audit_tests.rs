use glados::config::{retention_fits_days, strategy_weights, AuditArgs, AuditSettings};
use glados::failures::{failure_rows, sender_enrs, NewTransferFailure};
use glados::stats::{HistorySelectionStrategy, SelectionStrategy};

const SYNC: SelectionStrategy = SelectionStrategy::History(HistorySelectionStrategy::Sync);
const RANDOM: SelectionStrategy = SelectionStrategy::History(HistorySelectionStrategy::Random);

#[test]
fn rows_only_for_known_senders() {
    let resolved = vec![(Some(4), 'a'), (None, 'b'), (Some(9), 'c')];
    let rows = failure_rows(12, &resolved);
    assert_eq!(rows.len(), 2);
    assert_eq!(rows[0].audit_id, 12);
    assert_eq!(rows[0].sender_node_enr_id, 4);
    assert_eq!(rows[0].failure_type, 'a');
    assert_eq!(rows[1].sender_node_enr_id, 9);
    assert_eq!(rows[1].failure_type, 'c');
}

#[test]
fn no_rows_without_known_senders() {
    let resolved: Vec<(Option<i32>, u8)> = vec![(None, 1), (None, 2)];
    assert!(failure_rows(1, &resolved).is_empty());
}

#[test]
fn single_failure_row() {
    let row = NewTransferFailure::new(3, 8, 2u8);
    assert_eq!((row.audit_id, row.sender_node_enr_id, row.failure_type), (3, 8, 2));
}

#[test]
fn last_weight_wins() {
    let weights = strategy_weights(&vec![(SYNC, 1), (RANDOM, 2), (SYNC, 5)]);
    assert_eq!(weights.len(), 2);
    assert!(weights.contains(&(SYNC, 5)));
    assert!(weights.contains(&(RANDOM, 2)));
}

#[test]
fn settings_from_args() {
    let args = AuditArgs {
        strategy: vec![(SYNC, 3)],
        start_block: 10,
        end_block: 20,
        concurrency: 8,
        max_audit_rate: 5,
        stats_recording_period: 300,
        retention_period_days: Some(30),
    };
    let settings = AuditSettings::from_args(&args, 4);
    assert_eq!(settings.strategies, vec![(SYNC, 3)]);
    assert_eq!((settings.block_start, settings.block_end), (10, 20));
    assert_eq!(settings.concurrency, 8);
    assert_eq!(settings.max_audit_rate, 5);
    assert_eq!(settings.stats_recording_period_secs, 300);
    assert_eq!(settings.retention_period_days, Some(30));
    assert!(settings.concurrency_exceeds_system);
    assert!(!AuditSettings::from_args(&args, 8).concurrency_exceeds_system);
}

#[test]
fn retention_days_beyond_i64_wrap() {
    let args = AuditArgs {
        strategy: vec![],
        start_block: 0,
        end_block: 0,
        concurrency: 1,
        max_audit_rate: 1,
        stats_recording_period: 1,
        retention_period_days: Some(u64::MAX),
    };
    assert_eq!(AuditSettings::from_args(&args, 1).retention_period_days, Some(-1));
}

#[test]
fn senders_looked_up_in_metadata() {
    let a = [1u8; 32];
    let b = [2u8; 32];
    let c = [3u8; 32];
    let failures = vec![(a, 10u8), (b, 11u8), (c, 12u8)];
    let metadata = vec![
        (a, "enr:a-old".to_string()),
        (c, "enr:c".to_string()),
        (a, "enr:a".to_string()),
    ];
    let senders = sender_enrs(&failures, &metadata);
    assert_eq!(senders.len(), 3);
    assert_eq!(senders[0], (Some("enr:a".to_string()), 10));
    assert_eq!(senders[1], (None, 11));
    assert_eq!(senders[2], (Some("enr:c".to_string()), 12));
}

#[test]
fn retention_bound() {
    assert!(retention_fits_days(None));
    assert!(retention_fits_days(Some(30)));
    assert!(retention_fits_days(Some(106751991167)));
    assert!(!retention_fits_days(Some(106751991168)));
    assert!(retention_fits_days(Some(u64::MAX)));
}
