//! Durations in minutes, obtained from `chrono::TimeDelta`.

use vstd::prelude::*;

verus! {

/// The largest number of whole seconds that a `chrono::TimeDelta` can hold
/// symmetrically (`i64::MAX` milliseconds, rounded down to whole seconds).
pub open spec fn max_time_delta_secs() -> int {
    9223372036854775
}

/// `chrono::TimeDelta::hours(hours).num_minutes()`.
///
/// `TimeDelta::hours` builds the delta of `hours * 3600` seconds and panics when
/// that is outside the representable range; `num_minutes` divides the whole
/// seconds by 60, which is exact here.
#[verifier::external_body]
pub(crate) fn minutes_in_hours(hours: i64) -> (minutes: i64)
    requires
        -max_time_delta_secs() <= hours * 3600 <= max_time_delta_secs(),
    ensures
        minutes == hours * 60,
{
    chrono::TimeDelta::hours(hours).num_minutes()
}

/// `chrono::TimeDelta::days(days).num_minutes()`.
///
/// `TimeDelta::days` builds the delta of `days * 86400` seconds and panics when
/// that is outside the representable range; `num_minutes` divides the whole
/// seconds by 60, which is exact here.
#[verifier::external_body]
pub(crate) fn minutes_in_days(days: i64) -> (minutes: i64)
    requires
        -max_time_delta_secs() <= days * 86400 <= max_time_delta_secs(),
    ensures
        minutes == days * 1440,
{
    chrono::TimeDelta::days(days).num_minutes()
}

/// `chrono::TimeDelta::weeks(weeks).num_minutes()`.
///
/// `TimeDelta::weeks` builds the delta of `weeks * 604800` seconds and panics
/// when that is outside the representable range; `num_minutes` divides the
/// whole seconds by 60, which is exact here.
#[verifier::external_body]
pub(crate) fn minutes_in_weeks(weeks: i64) -> (minutes: i64)
    requires
        -max_time_delta_secs() <= weeks * 604800 <= max_time_delta_secs(),
    ensures
        minutes == weeks * 10080,
{
    chrono::TimeDelta::weeks(weeks).num_minutes()
}

} // verus!
