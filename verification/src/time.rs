//! Durations, made by std from whole seconds or milliseconds.

use std::time::Duration;

use vstd::prelude::*;

verus! {

/// The duration of a whole number of seconds, as `Duration::from_secs` makes it.
pub uninterp spec fn duration_from_secs(secs: u64) -> Duration;

/// The duration of a whole number of milliseconds, as `Duration::from_millis` makes it.
pub uninterp spec fn duration_from_millis(millis: u64) -> Duration;

/// `Duration::from_secs`: std documents it as the duration of `secs` whole seconds; the
/// contract names that value and says nothing more of it.
#[verifier::external_body]
pub(crate) fn seconds(secs: u64) -> (d: Duration)
    ensures
        d == duration_from_secs(secs),
{
    Duration::from_secs(secs)
}

/// `Duration::from_millis`: std documents it as the duration of `millis` milliseconds; the
/// contract names that value and says that a whole number of seconds in milliseconds is the
/// same duration as `Duration::from_secs` makes of those seconds.
#[verifier::external_body]
pub(crate) fn milliseconds(ms: u64) -> (d: Duration)
    ensures
        d == duration_from_millis(ms),
        ms % 1000 == 0 ==> d == duration_from_secs(ms / 1000),
{
    Duration::from_millis(ms)
}

} // verus!
