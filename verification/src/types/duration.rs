//! `std::time::Duration` as the parameter types and the retry strategy use it.
//!
//! vstd declares `Duration` but says nothing of its values; the library sees a
//! duration through the length it spans in nanoseconds, [`duration_nanos`].
use std::time::Duration;
use vstd::prelude::*;

verus! {

/// What `Duration::as_nanos` returns for a duration: the whole span in nanoseconds.
pub uninterp spec fn duration_nanos(d: Duration) -> u128;

/// Nanoseconds in `Duration::MAX` (`u64::MAX` seconds and 999 999 999 nanoseconds).
pub open spec fn duration_max_nanos() -> int {
    u64::MAX as int * 1_000_000_000 + 999_999_999
}

/// `Duration::as_nanos`: the span in nanoseconds. A duration spans at most
/// `Duration::MAX`, and two durations of the same span are the same (a
/// `Duration` is its whole seconds and its nanoseconds below one second).
#[verifier::external_body]
pub(crate) fn duration_as_nanos(d: &Duration) -> (n: u128)
    ensures
        n == duration_nanos(*d),
        n <= duration_max_nanos(),
        forall|e: Duration| #[trigger] duration_nanos(e) == n ==> e == *d,
{
    d.as_nanos()
}

/// `Duration::from_secs`: a span of `secs` seconds, the only duration of that span.
#[verifier::external_body]
pub(crate) fn duration_from_secs(secs: u64) -> (d: Duration)
    ensures
        duration_nanos(d) == secs as int * 1_000_000_000,
        forall|e: Duration| #[trigger] duration_nanos(e) == duration_nanos(d) ==> e == d,
{
    Duration::from_secs(secs)
}

/// `Duration::from_millis`: a span of `ms` milliseconds, the only duration of that span.
#[verifier::external_body]
pub(crate) fn duration_from_millis(ms: u64) -> (d: Duration)
    ensures
        duration_nanos(d) == ms as int * 1_000_000,
        forall|e: Duration| #[trigger] duration_nanos(e) == duration_nanos(d) ==> e == d,
{
    Duration::from_millis(ms)
}

/// `Duration::saturating_mul`: `d * k`, or `Duration::MAX` where that overflows;
/// the only duration of that span.
#[verifier::external_body]
pub(crate) fn duration_saturating_mul(d: Duration, k: u32) -> (r: Duration)
    ensures
        duration_nanos(r) == (if duration_nanos(d) * k <= duration_max_nanos() {
            duration_nanos(d) * k
        } else {
            duration_max_nanos()
        }),
        forall|e: Duration| #[trigger] duration_nanos(e) == duration_nanos(r) ==> e == r,
{
    d.saturating_mul(k)
}

/// True if the duration spans no time.
pub fn duration_is_zero(d: &Duration) -> (r: bool)
    ensures
        r == (duration_nanos(*d) == 0),
        duration_nanos(*d) <= duration_max_nanos(),
{
    duration_as_nanos(d) == 0
}

/// True if `a` is strictly shorter than `b`.
pub fn duration_lt(a: &Duration, b: &Duration) -> (r: bool)
    ensures
        r == (duration_nanos(*a) < duration_nanos(*b)),
        duration_nanos(*a) <= duration_max_nanos(),
        duration_nanos(*b) <= duration_max_nanos(),
{
    duration_as_nanos(a) < duration_as_nanos(b)
}

} // verus!
