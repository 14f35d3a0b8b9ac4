//! Audit filters, the query they select, and the statistics over a period.

use vstd::prelude::*;

use crate::time::{minutes_in_days, minutes_in_hours, minutes_in_weeks};

verus! {

/// The Portal sub-protocol (network) an audited piece of content belongs to.
#[derive(Clone, Copy, Debug, PartialEq, Eq, Structural)]
pub enum SubProtocol {
    History,
    State,
    Beacon,
}

/// Outcome of a single content audit.
#[derive(Clone, Copy, Debug, PartialEq, Eq, Structural)]
pub enum AuditResult {
    Failure,
    Success,
}

/// Strategies for selecting history content to audit.
#[derive(Clone, Copy, Debug, PartialEq, Eq, Structural)]
pub enum HistorySelectionStrategy {
    Sync,
    Random,
}

/// The strategy that selected a piece of content for audit.
#[derive(Clone, Copy, Debug, PartialEq, Eq, Structural)]
pub enum SelectionStrategy {
    History(HistorySelectionStrategy),
}

/// The window of time over which audit statistics are gathered.
#[derive(Clone, Copy, Debug, PartialEq, Eq, Structural)]
pub enum Period {
    Hour,
    Day,
    Week,
}

impl Period {
    /// Length of the period in minutes.
    pub open spec fn spec_minutes(self) -> nat {
        match self {
            Period::Hour => 60,
            Period::Day => 1440,
            Period::Week => 10080,
        }
    }

    /// The text shown for the period.
    pub open spec fn spec_label(self) -> Seq<char> {
        match self {
            Period::Hour => "Last hour"@,
            Period::Day => "Last day"@,
            Period::Week => "Last week"@,
        }
    }

    /// The length of the period in whole minutes, as `chrono` measures it.
    pub fn minutes(&self) -> (m: u64)
        ensures
            m == self.spec_minutes(),
    {
        let m = match self {
            Period::Hour => minutes_in_hours(1),
            Period::Day => minutes_in_days(1),
            Period::Week => minutes_in_weeks(1),
        };
        m as u64
    }

    /// The display text of the period: "Last hour", "Last day" or "Last week".
    pub fn label(&self) -> (s: String)
        ensures
            s@ == self.spec_label(),
    {
        match self {
            Period::Hour => String::from_str("Last hour"),
            Period::Day => String::from_str("Last day"),
            Period::Week => String::from_str("Last week"),
        }
    }
}

/// Which selection strategies to keep.
#[derive(Clone, Copy, Debug, PartialEq, Eq, Structural)]
pub enum StrategyFilter {
    All,
    Sync,
    Random,
}

impl StrategyFilter {
    /// The text shown for the filter.
    pub open spec fn spec_label(self) -> Seq<char> {
        match self {
            StrategyFilter::All => "All"@,
            StrategyFilter::Sync => "Sync"@,
            StrategyFilter::Random => "Random"@,
        }
    }

    /// The display text of the filter: "All", "Sync" or "Random".
    pub fn label(&self) -> (s: String)
        ensures
            s@ == self.spec_label(),
    {
        match self {
            StrategyFilter::All => String::from_str("All"),
            StrategyFilter::Sync => String::from_str("Sync"),
            StrategyFilter::Random => String::from_str("Random"),
        }
    }
}

/// Which audit outcomes to keep.
#[derive(Clone, Copy, Debug, PartialEq, Eq, Structural)]
pub enum SuccessFilter {
    All,
    Success,
    Failure,
}

/// Which kinds of content to keep.
#[derive(Clone, Copy, Debug, PartialEq, Eq, Structural)]
pub enum ContentTypeFilter {
    All,
    Bodies,
    Receipts,
}

/// The filters a user picks for the audit dashboard.
#[derive(Clone, Copy, Debug, PartialEq, Eq, Structural)]
pub struct AuditFilters {
    pub strategy: StrategyFilter,
    pub content_type: ContentTypeFilter,
    pub success: SuccessFilter,
    pub network: SubProtocol,
}

/// A selection of audits: the audited content must be on `network`, and each
/// condition that is present must hold.
#[derive(Clone, Copy, Debug, PartialEq, Eq, Structural)]
pub struct AuditQuery {
    /// The sub-protocol of the audited content.
    pub network: SubProtocol,
    /// The strategy that must have selected the content.
    pub strategy_used: Option<SelectionStrategy>,
    /// The outcome the audit must have had.
    pub result: Option<AuditResult>,
    /// The first byte the content key must start with.
    pub content_key_first_byte: Option<u8>,
}

/// Content key selector byte of block bodies.
pub const BODIES_SELECTOR: u8 = 0x03;

/// Content key selector byte of receipts.
pub const RECEIPTS_SELECTOR: u8 = 0x01;

/// The strategy condition a strategy filter stands for.
pub open spec fn strategy_condition(f: StrategyFilter) -> Option<SelectionStrategy> {
    match f {
        StrategyFilter::All => None,
        StrategyFilter::Sync => Some(SelectionStrategy::History(HistorySelectionStrategy::Sync)),
        StrategyFilter::Random => Some(SelectionStrategy::History(HistorySelectionStrategy::Random)),
    }
}

/// The outcome condition a success filter stands for.
pub open spec fn result_condition(f: SuccessFilter) -> Option<AuditResult> {
    match f {
        SuccessFilter::All => None,
        SuccessFilter::Success => Some(AuditResult::Success),
        SuccessFilter::Failure => Some(AuditResult::Failure),
    }
}

/// The content key condition a content type filter stands for.
pub open spec fn content_key_condition(f: ContentTypeFilter) -> Option<u8> {
    match f {
        ContentTypeFilter::All => None,
        ContentTypeFilter::Bodies => Some(BODIES_SELECTOR),
        ContentTypeFilter::Receipts => Some(RECEIPTS_SELECTOR),
    }
}

/// The query that the filters describe.
pub open spec fn spec_filter_audits(filters: AuditFilters) -> AuditQuery {
    AuditQuery {
        network: filters.network,
        strategy_used: strategy_condition(filters.strategy),
        result: result_condition(filters.success),
        content_key_first_byte: content_key_condition(filters.content_type),
    }
}

/// Builds the query for audits that the dashboard filters select.
pub fn filter_audits(filters: AuditFilters) -> (query: AuditQuery)
    ensures
        query == spec_filter_audits(filters),
        query.network == filters.network,
        filters.strategy == StrategyFilter::All ==> query.strategy_used is None,
        filters.strategy == StrategyFilter::Sync ==> query.strategy_used == Some(
            SelectionStrategy::History(HistorySelectionStrategy::Sync),
        ),
        filters.strategy == StrategyFilter::Random ==> query.strategy_used == Some(
            SelectionStrategy::History(HistorySelectionStrategy::Random),
        ),
        filters.success == SuccessFilter::All ==> query.result is None,
        filters.success == SuccessFilter::Success ==> query.result == Some(AuditResult::Success),
        filters.success == SuccessFilter::Failure ==> query.result == Some(AuditResult::Failure),
        filters.content_type == ContentTypeFilter::All ==> query.content_key_first_byte is None,
        filters.content_type == ContentTypeFilter::Bodies ==> query.content_key_first_byte == Some(
            0x03u8,
        ),
        filters.content_type == ContentTypeFilter::Receipts ==> query.content_key_first_byte
            == Some(0x01u8),
{
    let strategy_used = match filters.strategy {
        StrategyFilter::All => None,
        StrategyFilter::Sync => Some(SelectionStrategy::History(HistorySelectionStrategy::Sync)),
        StrategyFilter::Random => Some(SelectionStrategy::History(HistorySelectionStrategy::Random)),
    };
    let result = match filters.success {
        SuccessFilter::All => None,
        SuccessFilter::Success => Some(AuditResult::Success),
        SuccessFilter::Failure => Some(AuditResult::Failure),
    };
    let content_key_first_byte = match filters.content_type {
        ContentTypeFilter::All => None,
        ContentTypeFilter::Bodies => Some(BODIES_SELECTOR),
        ContentTypeFilter::Receipts => Some(RECEIPTS_SELECTOR),
    };
    AuditQuery { network: filters.network, strategy_used, result, content_key_first_byte }
}

/// One audit, as the query reads it.
#[derive(Debug)]
pub struct AuditRecord {
    pub network: SubProtocol,
    pub strategy_used: SelectionStrategy,
    pub result: AuditResult,
    pub content_key: Vec<u8>,
}

/// Whether an audit with these fields is selected by the query. A content
/// key condition needs a first byte, so an empty key never meets it.
pub open spec fn query_selects(
    query: AuditQuery,
    network: SubProtocol,
    strategy_used: SelectionStrategy,
    result: AuditResult,
    content_key: Seq<u8>,
) -> bool {
    &&& network == query.network
    &&& (query.strategy_used matches Some(s) ==> strategy_used == s)
    &&& (query.result matches Some(r) ==> result == r)
    &&& (query.content_key_first_byte matches Some(b) ==> content_key.len() > 0
        && content_key[0] == b)
}

impl AuditQuery {
    /// Whether the query selects the audit.
    pub fn matches(&self, audit: &AuditRecord) -> (selected: bool)
        ensures
            selected == query_selects(
                *self,
                audit.network,
                audit.strategy_used,
                audit.result,
                audit.content_key@,
            ),
            selected ==> audit.network == self.network,
            selected ==> (self.strategy_used matches Some(st) ==> audit.strategy_used == st),
            selected ==> (self.result matches Some(r) ==> audit.result == r),
            selected ==> (self.content_key_first_byte matches Some(b) ==> audit.content_key@.len()
                > 0 && audit.content_key@[0] == b),
            (audit.network == self.network && (self.strategy_used matches Some(st)
                ==> audit.strategy_used == st) && (self.result matches Some(r) ==> audit.result
                == r) && (self.content_key_first_byte matches Some(b)
                ==> audit.content_key@.len() > 0 && audit.content_key@[0] == b)) ==> selected,
    {
        if audit.network != self.network {
            return false;
        }
        match self.strategy_used {
            Some(s) => {
                if audit.strategy_used != s {
                    return false;
                }
            },
            None => {},
        }
        match self.result {
            Some(r) => {
                if audit.result != r {
                    return false;
                }
            },
            None => {},
        }
        match self.content_key_first_byte {
            Some(b) => audit.content_key.len() > 0 && audit.content_key[0] == b,
            None => true,
        }
    }
}

/// Audit counts and rate over a period.
#[derive(Clone, Copy, Debug, PartialEq, Eq, Structural)]
pub struct AuditStats {
    pub period: Period,
    pub total_audits: u64,
    pub total_passes: u64,
    pub total_failures: u64,
    pub audits_per_minute: u64,
}

/// The count reported for an outcome by a grouped count query, where a later
/// row for the same outcome replaces an earlier one and a missing outcome
/// counts as zero.
///
/// The rows are read as they come instead of being collected into a `HashMap`
/// keyed by outcome: vstd's `HashMap` specification proves nothing of lookups
/// for keys of a library type (its `Eq` and `Hash` are derived, and Verus does
/// not read derived impls). Reading the rows with the last one winning is what
/// collecting them into that map gives.
pub open spec fn reported_count(rows: Seq<(AuditResult, i64)>, outcome: AuditResult) -> i64
    decreases rows.len(),
{
    if rows.len() == 0 {
        0
    } else if rows.last().0 == outcome {
        rows.last().1
    } else {
        reported_count(rows.drop_last(), outcome)
    }
}

/// A signed count reinterpreted as an unsigned 64-bit number (two's complement).
pub open spec fn count_as_u64(c: i64) -> nat {
    if c >= 0 {
        c as nat
    } else {
        (c + 0x1_0000_0000_0000_0000) as nat
    }
}

/// The statistics of a period from the reported counts per outcome.
pub open spec fn spec_audit_stats(period: Period, rows: Seq<(AuditResult, i64)>) -> AuditStats {
    let passes = count_as_u64(reported_count(rows, AuditResult::Success));
    let failures = count_as_u64(reported_count(rows, AuditResult::Failure));
    AuditStats {
        period,
        total_audits: (passes + failures) as u64,
        total_passes: passes as u64,
        total_failures: failures as u64,
        audits_per_minute: ((passes + failures) / period.spec_minutes()) as u64,
    }
}

/// Whether the totals of the reported counts fit in 64 bits.
pub open spec fn stats_fit(rows: Seq<(AuditResult, i64)>) -> bool {
    count_as_u64(reported_count(rows, AuditResult::Success)) + count_as_u64(
        reported_count(rows, AuditResult::Failure),
    ) <= u64::MAX
}

/// The count of one outcome among grouped count rows.
fn count_of(rows: &Vec<(AuditResult, i64)>, outcome: AuditResult) -> (c: i64)
    ensures
        c == reported_count(rows@, outcome),
{
    let mut found: i64 = 0;
    let mut i: usize = 0;
    while i < rows.len()
        invariant
            i <= rows.len(),
            found == reported_count(rows@.take(i as int), outcome),
        decreases rows.len() - i,
    {
        assert(rows@.take(i + 1).drop_last() =~= rows@.take(i as int));
        if rows[i].0 == outcome {
            found = rows[i].1;
        }
        i = i + 1;
    }
    assert(rows@.take(rows.len() as int) =~= rows@);
    found
}

/// A signed count reinterpreted as unsigned.
fn count_to_u64(c: i64) -> (u: u64)
    ensures
        u == count_as_u64(c),
{
    let u = c as u64;
    assert(c < 0 ==> u == c + 0x1_0000_0000_0000_0000) by (bit_vector)
        requires
            u == c as u64,
    ;
    assert(c >= 0 ==> u == c) by (bit_vector)
        requires
            u == c as u64,
    ;
    u
}

/// Computes the statistics of a period from the per-outcome counts of the
/// audits in it (the rows of a count grouped by outcome).
pub fn compute_audit_stats(period: Period, rows: &Vec<(AuditResult, i64)>) -> (stats: AuditStats)
    requires
        stats_fit(rows@),
    ensures
        stats == spec_audit_stats(period, rows@),
        stats.total_audits == stats.total_passes + stats.total_failures,
{
    let total_passes = count_to_u64(count_of(rows, AuditResult::Success));
    let total_failures = count_to_u64(count_of(rows, AuditResult::Failure));
    let total_audits = total_passes + total_failures;
    let audits_per_minute = total_audits / period.minutes();
    AuditStats { period, total_audits, total_passes, total_failures, audits_per_minute }
}

/// Computes the statistics of a period from the per-outcome counts, or gives
/// `None` where the total does not fit in 64 bits (where adding the counts
/// overflows).
pub fn try_compute_audit_stats(period: Period, rows: &Vec<(AuditResult, i64)>) -> (stats: Option<
    AuditStats,
>)
    ensures
        stats is Some <==> stats_fit(rows@),
        stats matches Some(s) ==> s == spec_audit_stats(period, rows@),
{
    let total_passes = count_to_u64(count_of(rows, AuditResult::Success));
    let total_failures = count_to_u64(count_of(rows, AuditResult::Failure));
    match total_passes.checked_add(total_failures) {
        Some(_) => Some(compute_audit_stats(period, rows)),
        None => None,
    }
}

/// The start of a period that ends at `now` (seconds), as a timestamp.
pub open spec fn period_cutoff(now: int, period: Period) -> int {
    now - period.spec_minutes() * 60
}

/// How many audits with the outcome were created after the cutoff, where each
/// audit is its outcome and creation time in seconds.
pub open spec fn count_since(audits: Seq<(AuditResult, i64)>, cutoff: int, outcome: AuditResult) -> nat
    decreases audits.len(),
{
    if audits.len() == 0 {
        0
    } else {
        count_since(audits.drop_last(), cutoff, outcome) + if audits.last().0 == outcome
            && audits.last().1 > cutoff {
            1nat
        } else {
            0nat
        }
    }
}

/// A period no longer than another: an hour is within a day, a day within a
/// week.
pub open spec fn period_within(shorter: Period, longer: Period) -> bool {
    shorter.spec_minutes() <= longer.spec_minutes()
}

proof fn lemma_count_since_antitone(
    audits: Seq<(AuditResult, i64)>,
    early: int,
    late: int,
    outcome: AuditResult,
)
    requires
        early <= late,
    ensures
        count_since(audits, late, outcome) <= count_since(audits, early, outcome),
    decreases audits.len(),
{
    if audits.len() > 0 {
        lemma_count_since_antitone(audits.drop_last(), early, late, outcome);
    }
}

/// Over the same audits and the same end time, a longer period counts at
/// least as many audits of each outcome as a shorter one: hour <= day <= week.
pub proof fn lemma_longer_period_counts_more(
    audits: Seq<(AuditResult, i64)>,
    now: int,
    shorter: Period,
    longer: Period,
    outcome: AuditResult,
)
    requires
        period_within(shorter, longer),
    ensures
        count_since(audits, period_cutoff(now, shorter), outcome) <= count_since(
            audits,
            period_cutoff(now, longer),
            outcome,
        ),
        period_within(Period::Hour, Period::Day),
        period_within(Period::Day, Period::Week),
{
    lemma_count_since_antitone(
        audits,
        period_cutoff(now, longer),
        period_cutoff(now, shorter),
        outcome,
    );
}

/// Statistics follow their counts: where each outcome's count in one set of
/// rows is at most its count in another, so are the passes, the failures and
/// the total.
pub proof fn lemma_stats_monotone(
    period: Period,
    other_period: Period,
    fewer: Seq<(AuditResult, i64)>,
    more: Seq<(AuditResult, i64)>,
)
    requires
        stats_fit(fewer),
        stats_fit(more),
        count_as_u64(reported_count(fewer, AuditResult::Success)) <= count_as_u64(
            reported_count(more, AuditResult::Success),
        ),
        count_as_u64(reported_count(fewer, AuditResult::Failure)) <= count_as_u64(
            reported_count(more, AuditResult::Failure),
        ),
    ensures
        spec_audit_stats(period, fewer).total_passes <= spec_audit_stats(
            other_period,
            more,
        ).total_passes,
        spec_audit_stats(period, fewer).total_failures <= spec_audit_stats(
            other_period,
            more,
        ).total_failures,
        spec_audit_stats(period, fewer).total_audits <= spec_audit_stats(
            other_period,
            more,
        ).total_audits,
{
}

/// Each filter turns into its own condition of the query, whatever the other
/// filters are: a strategy filter into the strategy it names, a success filter
/// into the outcome it names, a content type filter into the selector byte of
/// that content, and "All" into no condition.
pub proof fn lemma_filters_become_conditions(filters: AuditFilters)
    ensures
        spec_filter_audits(filters).network == filters.network,
        (spec_filter_audits(filters).strategy_used is None) <==> filters.strategy
            == StrategyFilter::All,
        filters.strategy == StrategyFilter::Sync ==> spec_filter_audits(filters).strategy_used
            == Some(SelectionStrategy::History(HistorySelectionStrategy::Sync)),
        filters.strategy == StrategyFilter::Random ==> spec_filter_audits(filters).strategy_used
            == Some(SelectionStrategy::History(HistorySelectionStrategy::Random)),
        (spec_filter_audits(filters).result is None) <==> filters.success == SuccessFilter::All,
        filters.success == SuccessFilter::Success ==> spec_filter_audits(filters).result == Some(
            AuditResult::Success,
        ),
        filters.success == SuccessFilter::Failure ==> spec_filter_audits(filters).result == Some(
            AuditResult::Failure,
        ),
        (spec_filter_audits(filters).content_key_first_byte is None) <==> filters.content_type
            == ContentTypeFilter::All,
        filters.content_type == ContentTypeFilter::Bodies ==> spec_filter_audits(
            filters,
        ).content_key_first_byte == Some(0x03u8),
        filters.content_type == ContentTypeFilter::Receipts ==> spec_filter_audits(
            filters,
        ).content_key_first_byte == Some(0x01u8),
{
}

/// A query selects an audit exactly when the audit is on the query's network
/// and meets each condition the query has: the strategy, the outcome (a
/// failure condition keeps no successful audit, a success condition no failed
/// one), and the first byte of a non-empty content key.
pub proof fn lemma_query_conditions(
    query: AuditQuery,
    network: SubProtocol,
    strategy_used: SelectionStrategy,
    result: AuditResult,
    content_key: Seq<u8>,
)
    ensures
        query_selects(query, network, strategy_used, result, content_key) <==> {
            &&& network == query.network
            &&& (query.strategy_used matches Some(st) ==> strategy_used == st)
            &&& (query.result matches Some(r) ==> result == r)
            &&& (query.content_key_first_byte matches Some(b) ==> content_key.len() > 0
                && content_key[0] == b)
        },
        query.result == Some(AuditResult::Failure) && result == AuditResult::Success
            ==> !query_selects(query, network, strategy_used, result, content_key),
        query.result == Some(AuditResult::Success) && result == AuditResult::Failure
            ==> !query_selects(query, network, strategy_used, result, content_key),
{
}

/// The count of an outcome among grouped rows: zero without rows, the value of
/// a row for that outcome added last, and unchanged by a row added for another
/// outcome, so the order of rows for distinct outcomes does not matter.
pub proof fn lemma_reported_count_rows(rows: Seq<(AuditResult, i64)>, row: (AuditResult, i64), outcome: AuditResult)
    ensures
        reported_count(Seq::empty(), outcome) == 0,
        reported_count(rows.push(row), row.0) == row.1,
        row.0 != outcome ==> reported_count(rows.push(row), outcome) == reported_count(rows, outcome),
{
    assert(rows.push(row).drop_last() =~= rows);
}

/// The count of an outcome is that of its row where exactly one row has the
/// outcome, whatever the other rows and their order, and zero where no row has
/// it.
pub proof fn lemma_reported_count_single(rows: Seq<(AuditResult, i64)>, i: int, outcome: AuditResult)
    requires
        0 <= i < rows.len(),
        rows[i].0 == outcome,
        forall|j: int| 0 <= j < rows.len() && j != i ==> rows[j].0 != outcome,
    ensures
        reported_count(rows, outcome) == rows[i].1,
    decreases rows.len(),
{
    if i < rows.len() - 1 {
        let prefix = rows.drop_last();
        assert forall|j: int| 0 <= j < prefix.len() && j != i implies prefix[j].0 != outcome by {
            assert(prefix[j] == rows[j]);
        }
        lemma_reported_count_single(prefix, i, outcome);
    }
}

/// No row for an outcome means a count of zero.
pub proof fn lemma_reported_count_absent(rows: Seq<(AuditResult, i64)>, outcome: AuditResult)
    requires
        forall|j: int| 0 <= j < rows.len() ==> rows[j].0 != outcome,
    ensures
        reported_count(rows, outcome) == 0,
    decreases rows.len(),
{
    if rows.len() > 0 {
        let prefix = rows.drop_last();
        assert forall|j: int| 0 <= j < prefix.len() implies prefix[j].0 != outcome by {
            assert(prefix[j] == rows[j]);
        }
        lemma_reported_count_absent(prefix, outcome);
    }
}

/// A count read as unsigned is the 64-bit number congruent to it: below
/// `2^64`, differing from the count by a multiple of `2^64`, and the count
/// itself when it is not negative.
pub proof fn lemma_count_as_u64(c: i64)
    ensures
        count_as_u64(c) < 0x1_0000_0000_0000_0000,
        (count_as_u64(c) - c) % 0x1_0000_0000_0000_0000 == 0,
        c >= 0 ==> count_as_u64(c) == c,
{
}

/// The statistics of a period are the success count as passes, the failure
/// count as failures, their sum as total, and the total divided by the
/// period's minutes (60, 1440 or 10080) as the rate.
pub proof fn lemma_stats_fields(period: Period, rows: Seq<(AuditResult, i64)>)
    requires
        stats_fit(rows),
    ensures
        spec_audit_stats(period, rows).period == period,
        spec_audit_stats(period, rows).total_passes == count_as_u64(
            reported_count(rows, AuditResult::Success),
        ),
        spec_audit_stats(period, rows).total_failures == count_as_u64(
            reported_count(rows, AuditResult::Failure),
        ),
        spec_audit_stats(period, rows).total_audits == count_as_u64(
            reported_count(rows, AuditResult::Success),
        ) + count_as_u64(reported_count(rows, AuditResult::Failure)),
        period == Period::Hour ==> spec_audit_stats(period, rows).audits_per_minute
            == spec_audit_stats(period, rows).total_audits / 60,
        period == Period::Day ==> spec_audit_stats(period, rows).audits_per_minute
            == spec_audit_stats(period, rows).total_audits / 1440,
        period == Period::Week ==> spec_audit_stats(period, rows).audits_per_minute
            == spec_audit_stats(period, rows).total_audits / 10080,
{
}

/// With every filter at "All", the query selects every audit on the chosen
/// network, whatever its strategy, outcome and content key.
pub proof fn lemma_unfiltered_selects_network(
    network: SubProtocol,
    strategy_used: SelectionStrategy,
    result: AuditResult,
    content_key: Seq<u8>,
)
    ensures
        query_selects(
            spec_filter_audits(
                AuditFilters {
                    strategy: StrategyFilter::All,
                    content_type: ContentTypeFilter::All,
                    success: SuccessFilter::All,
                    network,
                },
            ),
            network,
            strategy_used,
            result,
            content_key,
        ),
{
}

/// No query selects an audit on another network.
pub proof fn lemma_query_keeps_network(
    filters: AuditFilters,
    network: SubProtocol,
    strategy_used: SelectionStrategy,
    result: AuditResult,
    content_key: Seq<u8>,
)
    requires
        network != filters.network,
    ensures
        !query_selects(spec_filter_audits(filters), network, strategy_used, result, content_key),
{
}

/// Widening any one filter to "All" keeps every audit the narrower filters
/// selected.
pub proof fn lemma_widening_keeps_selection(
    filters: AuditFilters,
    network: SubProtocol,
    strategy_used: SelectionStrategy,
    result: AuditResult,
    content_key: Seq<u8>,
)
    requires
        query_selects(spec_filter_audits(filters), network, strategy_used, result, content_key),
    ensures
        query_selects(
            spec_filter_audits(AuditFilters { strategy: StrategyFilter::All, ..filters }),
            network,
            strategy_used,
            result,
            content_key,
        ),
        query_selects(
            spec_filter_audits(AuditFilters { success: SuccessFilter::All, ..filters }),
            network,
            strategy_used,
            result,
            content_key,
        ),
        query_selects(
            spec_filter_audits(AuditFilters { content_type: ContentTypeFilter::All, ..filters }),
            network,
            strategy_used,
            result,
            content_key,
        ),
{
}

/// The total of a period is the passes plus the failures, and the rate is the
/// whole number of audits per minute of the period.
pub proof fn lemma_stats_totals(period: Period, rows: Seq<(AuditResult, i64)>)
    requires
        stats_fit(rows),
    ensures
        spec_audit_stats(period, rows).total_audits == spec_audit_stats(period, rows).total_passes
            + spec_audit_stats(period, rows).total_failures,
        spec_audit_stats(period, rows).audits_per_minute * period.spec_minutes()
            <= spec_audit_stats(period, rows).total_audits,
        spec_audit_stats(period, rows).total_audits < (spec_audit_stats(period, rows).audits_per_minute
            + 1) * period.spec_minutes(),
{
    let stats = spec_audit_stats(period, rows);
    let total = stats.total_audits as int;
    let m = period.spec_minutes() as int;
    assert(m > 0);
    assert(stats.audits_per_minute == total / m);
    assert((total / m) * m <= total && total < (total / m + 1) * m) by (nonlinear_arith)
        requires
            m > 0,
            total >= 0,
    ;
}

} // verus!
