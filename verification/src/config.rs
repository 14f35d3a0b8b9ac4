//! Audit settings derived from the command line.

use vstd::prelude::*;

use crate::stats::SelectionStrategy;
use crate::time::max_time_delta_secs;

verus! {

/// The weight a list of (strategy, weight) pairs gives a strategy: that of its
/// last pair, as when the pairs are collected into a map.
pub open spec fn weight_of(pairs: Seq<(SelectionStrategy, u8)>, s: SelectionStrategy) -> Option<u8>
    decreases pairs.len(),
{
    if pairs.len() == 0 {
        None
    } else if pairs.last().0 == s {
        Some(pairs.last().1)
    } else {
        weight_of(pairs.drop_last(), s)
    }
}

/// No strategy occurs twice.
pub open spec fn strategies_distinct(pairs: Seq<(SelectionStrategy, u8)>) -> bool {
    forall|i: int, j: int| 0 <= i < j < pairs.len() ==> pairs[i].0 != pairs[j].0
}

proof fn lemma_weight_of_absent(pairs: Seq<(SelectionStrategy, u8)>, s: SelectionStrategy)
    requires
        forall|i: int| 0 <= i < pairs.len() ==> pairs[i].0 != s,
    ensures
        weight_of(pairs, s) is None,
    decreases pairs.len(),
{
    if pairs.len() > 0 {
        lemma_weight_of_absent(pairs.drop_last(), s);
    }
}

proof fn lemma_weight_of_at(pairs: Seq<(SelectionStrategy, u8)>, j: int)
    requires
        strategies_distinct(pairs),
        0 <= j < pairs.len(),
    ensures
        weight_of(pairs, pairs[j].0) == Some(pairs[j].1),
    decreases pairs.len(),
{
    if j < pairs.len() - 1 {
        lemma_weight_of_at(pairs.drop_last(), j);
    }
}

proof fn lemma_weight_of_update(
    pairs: Seq<(SelectionStrategy, u8)>,
    j: int,
    w: u8,
    s: SelectionStrategy,
)
    requires
        strategies_distinct(pairs),
        0 <= j < pairs.len(),
    ensures
        weight_of(pairs.update(j, (pairs[j].0, w)), s) == if s == pairs[j].0 {
            Some(w)
        } else {
            weight_of(pairs, s)
        },
    decreases pairs.len(),
{
    let updated = pairs.update(j, (pairs[j].0, w));
    if j == pairs.len() - 1 {
        assert(updated.drop_last() =~= pairs.drop_last());
    } else {
        assert(updated.drop_last() =~= pairs.drop_last().update(j, (pairs[j].0, w)));
        lemma_weight_of_update(pairs.drop_last(), j, w, s);
        if s == pairs[j].0 {
            assert(pairs.last().0 != s);
        }
    }
}

/// A strategy has no weight without pairs, the weight of a pair added last
/// for it, and a weight unchanged by a pair added for another strategy.
pub proof fn lemma_weight_of_pairs(
    pairs: Seq<(SelectionStrategy, u8)>,
    pair: (SelectionStrategy, u8),
    s: SelectionStrategy,
)
    ensures
        weight_of(Seq::empty(), s) is None,
        weight_of(pairs.push(pair), pair.0) == Some(pair.1),
        pair.0 != s ==> weight_of(pairs.push(pair), s) == weight_of(pairs, s),
{
    assert(pairs.push(pair).drop_last() =~= pairs);
}

/// The weight of each strategy, one pair per strategy, as a map collected from
/// the pairs: a strategy's weight is that of its last pair.
///
/// The map is a `Vec` of pairs with no strategy twice, not a `HashMap`: vstd's
/// `HashMap` specification proves nothing of lookups for keys of a library type
/// (its `Eq` and `Hash` are derived, and Verus does not read derived impls).
pub fn strategy_weights(pairs: &Vec<(SelectionStrategy, u8)>) -> (weights: Vec<
    (SelectionStrategy, u8),
>)
    ensures
        strategies_distinct(weights@),
        forall|s: SelectionStrategy| weight_of(weights@, s) == weight_of(pairs@, s),
{
    let mut weights: Vec<(SelectionStrategy, u8)> = Vec::new();
    let mut i: usize = 0;
    while i < pairs.len()
        invariant
            i <= pairs@.len(),
            strategies_distinct(weights@),
            forall|s: SelectionStrategy|
                weight_of(weights@, s) == weight_of(pairs@.take(i as int), s),
        decreases pairs@.len() - i,
    {
        let (strategy, weight) = pairs[i];
        assert(pairs@.take(i + 1).drop_last() =~= pairs@.take(i as int));
        let ghost before = weights@;
        let mut j: usize = 0;
        while j < weights.len()
            invariant
                j <= weights@.len(),
                weights@ == before,
                forall|k: int| 0 <= k < j ==> weights@[k].0 != strategy,
            ensures
                j <= weights@.len(),
                weights@ == before,
                forall|k: int| 0 <= k < j ==> weights@[k].0 != strategy,
                j < weights@.len() ==> weights@[j as int].0 == strategy,
            decreases weights@.len() - j,
        {
            if weights[j].0 == strategy {
                break;
            }
            j = j + 1;
        }
        let ghost next = pairs@.take(i + 1);
        assert(forall|s: SelectionStrategy| #[trigger] weight_of(next, s) == if s == strategy {
            Some(weight)
        } else {
            weight_of(pairs@.take(i as int), s)
        });
        if j < weights.len() {
            proof {
                assert forall|s: SelectionStrategy|
                    weight_of(before.update(j as int, (strategy, weight)), s) == weight_of(
                        pairs@.take(i + 1),
                        s,
                    ) by {
                    lemma_weight_of_update(before, j as int, weight, s);
                }
            }
            weights.set(j, (strategy, weight));
        } else {
            proof {
                lemma_weight_of_absent(before, strategy);
            }
            weights.push((strategy, weight));
            assert(weights@.drop_last() =~= before);
            assert forall|s: SelectionStrategy|
                weight_of(weights@, s) == weight_of(next, s) by {
                assert(weight_of(weights@, s) == if weights@.last().0 == s {
                    Some(weights@.last().1)
                } else {
                    weight_of(weights@.drop_last(), s)
                });
            }
        }
        i = i + 1;
    }
    assert(pairs@.take(pairs@.len() as int) =~= pairs@);
    weights
}

/// The settings an audit run is given on the command line.
#[derive(Debug)]
pub struct AuditArgs {
    pub strategy: Vec<(SelectionStrategy, u8)>,
    pub start_block: u64,
    pub end_block: u64,
    pub concurrency: usize,
    pub max_audit_rate: usize,
    pub stats_recording_period: u64,
    pub retention_period_days: Option<u64>,
}

/// The settings an audit run works with.
#[derive(Debug)]
pub struct AuditSettings {
    /// Each strategy once, with its weight.
    pub strategies: Vec<(SelectionStrategy, u8)>,
    /// First block of the audited range.
    pub block_start: u64,
    /// Last block of the audited range (included).
    pub block_end: u64,
    pub concurrency: usize,
    pub max_audit_rate: usize,
    /// Seconds between two records of the audit performance.
    pub stats_recording_period_secs: u64,
    /// How many days audits are kept, where they are ever deleted.
    pub retention_period_days: Option<i64>,
    /// Whether more requests run at once than the machine has threads.
    pub concurrency_exceeds_system: bool,
}

/// A day count as a signed 64-bit number (two's complement).
pub open spec fn days_as_i64(days: u64) -> int {
    if days <= i64::MAX {
        days as int
    } else {
        days - 0x1_0000_0000_0000_0000
    }
}

/// Whether a retention period of that many days can be held as a time delta.
pub open spec fn retention_fits(days: Option<u64>) -> bool {
    days matches Some(d) ==> -max_time_delta_secs() <= days_as_i64(d) * 86400
        <= max_time_delta_secs()
}

fn days_to_i64(days: u64) -> (d: i64)
    ensures
        d == days_as_i64(days),
{
    let d = days as i64;
    assert(days <= 0x7fff_ffff_ffff_ffff ==> d == days) by (bit_vector)
        requires
            d == days as i64,
    ;
    assert(days > 0x7fff_ffff_ffff_ffff ==> d == days - 0x1_0000_0000_0000_0000) by (bit_vector)
        requires
            d == days as i64,
    ;
    d
}

/// Whether a retention period of that many days can be held as a time delta
/// (where `chrono::TimeDelta::days` does not panic).
pub fn retention_fits_days(days: Option<u64>) -> (fits: bool)
    ensures
        fits == retention_fits(days),
{
    match days {
        Some(d) => {
            let secs: i128 = (days_to_i64(d) as i128) * 86400;
            -9223372036854775 <= secs && secs <= 9223372036854775
        },
        None => true,
    }
}

impl AuditSettings {
    /// The settings for the given arguments on a machine that runs
    /// `system_parallelism` threads at once.
    pub fn from_args(args: &AuditArgs, system_parallelism: usize) -> (settings: Self)
        requires
            retention_fits(args.retention_period_days),
        ensures
            strategies_distinct(settings.strategies@),
            forall|s: SelectionStrategy|
                weight_of(settings.strategies@, s) == weight_of(args.strategy@, s),
            settings.block_start == args.start_block,
            settings.block_end == args.end_block,
            settings.concurrency == args.concurrency,
            settings.max_audit_rate == args.max_audit_rate,
            settings.stats_recording_period_secs == args.stats_recording_period,
            settings.retention_period_days == match args.retention_period_days {
                Some(d) => Some(days_as_i64(d) as i64),
                None => None::<i64>,
            },
            settings.concurrency_exceeds_system == (args.concurrency > system_parallelism),
    {
        let strategies = strategy_weights(&args.strategy);
        let retention_period_days = match args.retention_period_days {
            Some(d) => Some(days_to_i64(d)),
            None => None,
        };
        AuditSettings {
            strategies,
            block_start: args.start_block,
            block_end: args.end_block,
            concurrency: args.concurrency,
            max_audit_rate: args.max_audit_rate,
            stats_recording_period_secs: args.stats_recording_period,
            retention_period_days,
            concurrency_exceeds_system: args.concurrency > system_parallelism,
        }
    }
}

} // verus!
