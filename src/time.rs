//! What the library relies on from `std::time::Duration`.
use std::time::Duration;
use vstd::prelude::*;

verus! {

/// The duration that `Duration::from_secs(secs)` returns: a span of `secs` whole
/// seconds. It depends on `secs` alone.
pub uninterp spec fn duration_from_secs(secs: u64) -> Duration;

/// Relies on `Duration::from_secs`, which builds a duration of whole seconds and
/// never panics.
pub assume_specification[ core::time::Duration::from_secs ](secs: u64) -> (r: Duration)
    ensures
        r == duration_from_secs(secs),
;

/// Relies on `Duration`'s derived `==`: two durations compare equal exactly when
/// they are the same value.
pub assume_specification[ <core::time::Duration as core::cmp::PartialEq>::eq ](
    a: &Duration,
    b: &Duration,
) -> (r: bool)
    ensures
        r == (*a == *b),
;

} // verus!
