//! Durations of whole minutes, hours and days, where they fit.
use std::time::Duration;

use vstd::prelude::*;

verus! {

pub const SECS_PER_MINUTE: u64 = 60;

pub const MINS_PER_HOUR: u64 = 60;

pub const HOURS_PER_DAY: u64 = 24;

/// The duration of a whole number of seconds.
pub uninterp spec fn secs_duration(secs: u64) -> Duration;

/// Calls `std::time::Duration::from_secs`.
/// Claimed: the duration depends on the number of seconds alone.
#[verifier::external_body]
fn duration_from_secs(secs: u64) -> (d: Duration)
    ensures
        d == secs_duration(secs),
{
    Duration::from_secs(secs)
}

/// The duration of `days` days, when its number of seconds fits in a `u64`.
pub fn from_days(days: u64) -> (r: Option<Duration>)
    ensures
        days <= u64::MAX / 86400 ==> r == Some(secs_duration((days * 86400) as u64)),
        days > u64::MAX / 86400 ==> r is None,
{
    if days > u64::MAX / (SECS_PER_MINUTE * MINS_PER_HOUR * HOURS_PER_DAY) {
        return None;
    }
    Some(duration_from_secs(days * MINS_PER_HOUR * SECS_PER_MINUTE * HOURS_PER_DAY))
}

/// The duration of `hours` hours, when its number of seconds fits in a `u64`.
pub fn from_hours(hours: u64) -> (r: Option<Duration>)
    ensures
        hours <= u64::MAX / 3600 ==> r == Some(secs_duration((hours * 3600) as u64)),
        hours > u64::MAX / 3600 ==> r is None,
{
    if hours > u64::MAX / (SECS_PER_MINUTE * MINS_PER_HOUR) {
        return None;
    }
    Some(duration_from_secs(hours * MINS_PER_HOUR * SECS_PER_MINUTE))
}

/// The duration of `mins` minutes, when its number of seconds fits in a `u64`.
pub fn from_mins(mins: u64) -> (r: Option<Duration>)
    ensures
        mins <= u64::MAX / 60 ==> r == Some(secs_duration((mins * 60) as u64)),
        mins > u64::MAX / 60 ==> r is None,
{
    if mins > u64::MAX / SECS_PER_MINUTE {
        return None;
    }
    Some(duration_from_secs(mins * SECS_PER_MINUTE))
}

} // verus!
