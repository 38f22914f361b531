//! What the library relies on of `std::time::Duration`.
use std::time::Duration;
use vstd::prelude::*;

verus! {

/// The whole seconds of a duration: what `Duration::as_secs` returns for it.
pub uninterp spec fn duration_secs(d: Duration) -> u64;

/// The fractional part of a duration in nanoseconds: what
/// `Duration::subsec_nanos` returns for it.
pub uninterp spec fn duration_subsec_nanos(d: Duration) -> u32;

/// The duration of `secs` whole seconds: what `Duration::from_secs` returns.
pub uninterp spec fn duration_from_secs(secs: u64) -> Duration;

/// The length of a duration in nanoseconds.
pub open spec fn duration_nanos(d: Duration) -> int {
    duration_secs(d) * 1_000_000_000 + duration_subsec_nanos(d)
}

/// A duration's length in nanoseconds is its whole seconds times one billion
/// plus its fraction; and since the fraction is below one second, durations
/// are ordered by whole seconds first and by the fraction among equal seconds.
pub proof fn lemma_duration_nanos_is_length(a: Duration, b: Duration)
    requires
        duration_subsec_nanos(a) < 1_000_000_000,
        duration_subsec_nanos(b) < 1_000_000_000,
    ensures
        duration_nanos(a) == duration_secs(a) as int * 1_000_000_000 + duration_subsec_nanos(a) as int,
        duration_nanos(a) > duration_nanos(b) <==> (duration_secs(a) > duration_secs(b) || (
        duration_secs(a) == duration_secs(b) && duration_subsec_nanos(a) > duration_subsec_nanos(
            b,
        ))),
{
    assert(duration_secs(a) > duration_secs(b) ==> duration_secs(a) as int * 1_000_000_000
        >= duration_secs(b) as int * 1_000_000_000 + 1_000_000_000) by (nonlinear_arith);
    assert(duration_secs(a) < duration_secs(b) ==> duration_secs(b) as int * 1_000_000_000
        >= duration_secs(a) as int * 1_000_000_000 + 1_000_000_000) by (nonlinear_arith);
}

/// `Duration::as_secs` returns the whole seconds of the duration.
pub assume_specification[ Duration::as_secs ](d: &Duration) -> (secs: u64)
    ensures
        secs == duration_secs(*d),
;

/// `Duration::subsec_nanos` returns the fractional part in nanoseconds,
/// which std documents to be less than one second.
pub assume_specification[ Duration::subsec_nanos ](d: &Duration) -> (nanos: u32)
    ensures
        nanos == duration_subsec_nanos(*d),
        nanos < 1_000_000_000,
;

/// `Duration::from_secs(secs)` is exactly `secs` seconds: its whole seconds are
/// `secs` and its fractional part is zero.
pub assume_specification[ Duration::from_secs ](secs: u64) -> (d: Duration)
    ensures
        d == duration_from_secs(secs),
        duration_secs(d) == secs,
        duration_subsec_nanos(d) == 0,
;

/// Whether `a` is strictly longer than `b`, as `a > b` on durations compares.
pub fn duration_longer(a: &Duration, b: &Duration) -> (longer: bool)
    ensures
        longer == (duration_nanos(*a) > duration_nanos(*b)),
        longer == (duration_secs(*a) > duration_secs(*b) || (duration_secs(*a) == duration_secs(
            *b,
        ) && duration_subsec_nanos(*a) > duration_subsec_nanos(*b))),
{
    let a_secs = a.as_secs();
    let b_secs = b.as_secs();
    let a_nanos = a.subsec_nanos();
    let b_nanos = b.subsec_nanos();
    a_secs > b_secs || (a_secs == b_secs && a_nanos > b_nanos)
}

} // verus!
