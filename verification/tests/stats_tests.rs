use glados::stats::{
    compute_audit_stats, filter_audits, try_compute_audit_stats, AuditFilters, AuditQuery, AuditRecord, AuditResult,
    ContentTypeFilter, HistorySelectionStrategy, Period, SelectionStrategy, StrategyFilter,
    SubProtocol, SuccessFilter, BODIES_SELECTOR, RECEIPTS_SELECTOR,
};

fn filters(
    strategy: StrategyFilter,
    success: SuccessFilter,
    content_type: ContentTypeFilter,
) -> AuditFilters {
    AuditFilters { strategy, content_type, success, network: SubProtocol::History }
}

fn record(strategy: HistorySelectionStrategy, result: AuditResult, key: Vec<u8>) -> AuditRecord {
    AuditRecord {
        network: SubProtocol::History,
        strategy_used: SelectionStrategy::History(strategy),
        result,
        content_key: key,
    }
}

#[test]
fn period_minutes_match_chrono() {
    assert_eq!(Period::Hour.minutes(), 60);
    assert_eq!(Period::Day.minutes(), 1440);
    assert_eq!(Period::Week.minutes(), 10080);
}

#[test]
fn period_labels() {
    assert_eq!(Period::Hour.label(), "Last hour");
    assert_eq!(Period::Day.label(), "Last day");
    assert_eq!(Period::Week.label(), "Last week");
}

#[test]
fn strategy_filter_labels() {
    assert_eq!(StrategyFilter::All.label(), "All");
    assert_eq!(StrategyFilter::Sync.label(), "Sync");
    assert_eq!(StrategyFilter::Random.label(), "Random");
}

#[test]
fn unfiltered_query_only_fixes_network() {
    let q = filter_audits(filters(StrategyFilter::All, SuccessFilter::All, ContentTypeFilter::All));
    assert_eq!(
        q,
        AuditQuery {
            network: SubProtocol::History,
            strategy_used: None,
            result: None,
            content_key_first_byte: None
        }
    );
    assert!(q.matches(&record(HistorySelectionStrategy::Random, AuditResult::Failure, vec![])));
    let other = AuditRecord {
        network: SubProtocol::State,
        strategy_used: SelectionStrategy::History(HistorySelectionStrategy::Sync),
        result: AuditResult::Success,
        content_key: vec![1],
    };
    assert!(!q.matches(&other));
}

#[test]
fn each_filter_becomes_a_condition() {
    let q = filter_audits(filters(
        StrategyFilter::Sync,
        SuccessFilter::Success,
        ContentTypeFilter::Bodies,
    ));
    assert_eq!(
        q.strategy_used,
        Some(SelectionStrategy::History(HistorySelectionStrategy::Sync))
    );
    assert_eq!(q.result, Some(AuditResult::Success));
    assert_eq!(q.content_key_first_byte, Some(BODIES_SELECTOR));

    let q = filter_audits(filters(
        StrategyFilter::Random,
        SuccessFilter::Failure,
        ContentTypeFilter::Receipts,
    ));
    assert_eq!(
        q.strategy_used,
        Some(SelectionStrategy::History(HistorySelectionStrategy::Random))
    );
    assert_eq!(q.result, Some(AuditResult::Failure));
    assert_eq!(q.content_key_first_byte, Some(RECEIPTS_SELECTOR));
}

#[test]
fn query_checks_every_condition() {
    let q = filter_audits(filters(
        StrategyFilter::Sync,
        SuccessFilter::Success,
        ContentTypeFilter::Bodies,
    ));
    assert!(q.matches(&record(HistorySelectionStrategy::Sync, AuditResult::Success, vec![0x03, 7])));
    assert!(!q.matches(&record(HistorySelectionStrategy::Random, AuditResult::Success, vec![0x03])));
    assert!(!q.matches(&record(HistorySelectionStrategy::Sync, AuditResult::Failure, vec![0x03])));
    assert!(!q.matches(&record(HistorySelectionStrategy::Sync, AuditResult::Success, vec![0x01])));
    assert!(!q.matches(&record(HistorySelectionStrategy::Sync, AuditResult::Success, vec![])));
}

#[test]
fn stats_from_counts() {
    let rows = vec![(AuditResult::Success, 90), (AuditResult::Failure, 30)];
    let stats = compute_audit_stats(Period::Hour, &rows);
    assert_eq!(stats.total_passes, 90);
    assert_eq!(stats.total_failures, 30);
    assert_eq!(stats.total_audits, 120);
    assert_eq!(stats.audits_per_minute, 2);
    assert_eq!(stats.period, Period::Hour);
}

#[test]
fn stats_missing_outcome_counts_zero() {
    let rows = vec![(AuditResult::Failure, 2000)];
    let stats = compute_audit_stats(Period::Day, &rows);
    assert_eq!(stats.total_passes, 0);
    assert_eq!(stats.total_failures, 2000);
    assert_eq!(stats.audits_per_minute, 1);
    let stats = compute_audit_stats(Period::Week, &vec![]);
    assert_eq!(stats.total_audits, 0);
    assert_eq!(stats.audits_per_minute, 0);
}

#[test]
fn stats_later_row_replaces_earlier() {
    let rows = vec![(AuditResult::Success, 5), (AuditResult::Success, 7)];
    let stats = compute_audit_stats(Period::Hour, &rows);
    assert_eq!(stats.total_passes, 7);
    assert_eq!(stats.total_audits, 7);
}

#[test]
fn stats_negative_count_wraps_like_a_cast() {
    let rows = vec![(AuditResult::Success, -1)];
    let stats = compute_audit_stats(Period::Hour, &rows);
    assert_eq!(stats.total_passes, u64::MAX);
    assert_eq!(stats.total_audits, u64::MAX);
}

#[test]
fn widening_a_filter_keeps_its_audits() {
    let narrow = filter_audits(filters(
        StrategyFilter::Random,
        SuccessFilter::Failure,
        ContentTypeFilter::Receipts,
    ));
    let wide = filter_audits(filters(
        StrategyFilter::All,
        SuccessFilter::Failure,
        ContentTypeFilter::Receipts,
    ));
    let audit = record(HistorySelectionStrategy::Random, AuditResult::Failure, vec![0x01]);
    assert!(narrow.matches(&audit));
    assert!(wide.matches(&audit));
    let other = record(HistorySelectionStrategy::Sync, AuditResult::Failure, vec![0x01]);
    assert!(!narrow.matches(&other));
    assert!(wide.matches(&other));
}

#[test]
fn stats_rate_is_whole_audits_per_minute() {
    let rows = vec![(AuditResult::Success, 10079), (AuditResult::Failure, 1)];
    let stats = compute_audit_stats(Period::Week, &rows);
    assert_eq!(stats.audits_per_minute, 1);
    let rows = vec![(AuditResult::Success, 10078), (AuditResult::Failure, 1)];
    assert_eq!(compute_audit_stats(Period::Week, &rows).audits_per_minute, 0);
}

#[test]
fn checked_stats_refuse_overflow() {
    let rows = vec![(AuditResult::Success, -1), (AuditResult::Failure, 1)];
    assert!(try_compute_audit_stats(Period::Hour, &rows).is_none());
    let rows = vec![(AuditResult::Success, 3), (AuditResult::Failure, 1)];
    assert_eq!(
        try_compute_audit_stats(Period::Hour, &rows),
        Some(compute_audit_stats(Period::Hour, &rows))
    );
}

#[test]
fn more_counted_audits_give_larger_totals() {
    let hour = compute_audit_stats(Period::Hour, &vec![(AuditResult::Success, 4), (AuditResult::Failure, 1)]);
    let day = compute_audit_stats(Period::Day, &vec![(AuditResult::Success, 40), (AuditResult::Failure, 9)]);
    assert!(hour.total_passes <= day.total_passes);
    assert!(hour.total_failures <= day.total_failures);
    assert!(hour.total_audits <= day.total_audits);
    assert!(Period::Hour.minutes() <= Period::Day.minutes());
    assert!(Period::Day.minutes() <= Period::Week.minutes());
}
