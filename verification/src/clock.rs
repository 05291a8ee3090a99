//! The monotonic clock, by which a worker measures how long it has run.

use vstd::prelude::*;

verus! {

#[verifier::external_type_specification]
#[verifier::external_body]
pub struct ExInstant(std::time::Instant);

/// Calls `Instant::now` of the standard library: the current reading of the
/// monotonic clock. Nothing is claimed of the reading.
#[verifier::external_body]
pub(crate) fn now() -> (t: std::time::Instant) {
    std::time::Instant::now()
}

/// The time from the reading `earlier` to the reading `later`, as the
/// standard library computes it.
pub uninterp spec fn span(earlier: std::time::Instant, later: std::time::Instant) -> std::time::Duration;

/// Calls `Instant::saturating_duration_since` of the standard library: the
/// time that passed from the reading `earlier` to the reading `later`, or no
/// time if `earlier` is the later of the two. The result depends on the two
/// readings alone.
#[verifier::external_body]
pub(crate) fn span_between(earlier: &std::time::Instant, later: &std::time::Instant) -> (d:
    std::time::Duration)
    ensures
        d == span(*earlier, *later),
{
    later.saturating_duration_since(*earlier)
}

} // verus!
