//! The two fixed intervals of the attachment manager, as timer spans.

use embassy_time::Duration;
use vstd::prelude::*;

verus! {

/// `embassy_time::Duration`, a span of time counted in ticks of the global
/// time base. The library makes such spans and carries them to the host's
/// timer; it never looks inside one.
#[verifier::external_type_specification]
#[verifier::external_body]
pub struct ExDuration(embassy_time::Duration);

/// Pause after a failed association and after a lost connection, in
/// milliseconds.
pub const COOL_DOWN_MS: u64 = 5000;

/// Pause between two looks at the network stack while waiting for it to
/// come up, in milliseconds.
pub const POLL_INTERVAL_MS: u64 = 500;

/// Longest span, in milliseconds, that is ever turned into ticks here. At
/// every tick rate that the time base offers, the tick count of such a
/// span fits in 64 bits.
pub const LONGEST_SPAN_MS: u64 = 1_000_000_000;

/// The span that `embassy_time::Duration::from_millis` makes of `millis`
/// milliseconds: the least number of ticks that lasts at least that long.
/// The tick rate is fixed when the program is built, so the span depends
/// on `millis` alone.
pub uninterp spec fn span_of_millis(millis: u64) -> Duration;

/// Calls `embassy_time::Duration::from_millis`. The contract names the
/// result and leaves out the inputs whose tick count could overflow.
#[verifier::external_body]
pub(crate) fn span_from_millis(millis: u64) -> (span: Duration)
    requires
        millis <= LONGEST_SPAN_MS,
    ensures
        span == span_of_millis(millis),
{
    Duration::from_millis(millis)
}

} // verus!
