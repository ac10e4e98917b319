//! The clock that the loop is sampled against.
//!
//! This is the one place where the library reaches outside itself. What the
//! clock says cannot be known beforehand, so nothing is claimed of it; the
//! loop is verified for every instant it may report.

use vstd::prelude::*;
use crate::heartbeat::Instant;

verus! {

/// Reads the clock with `embassy_time::Instant::now` and converts the reading
/// to whole milliseconds with `embassy_time::Instant::as_millis`.
///
/// Trusted, with nothing claimed of the result: it is whatever the time
/// driver reports at the moment of the call. Neither call panics. The
/// conversion multiplies the tick count by `1000 / gcd(TICK_HZ, 1000)` before
/// it divides, which is a multiplication by one at the tick rate of one
/// megahertz that `embassy-time` is built with here.
#[verifier::external_body]
pub(crate) fn now() -> (now: Instant) {
    Instant { millis: embassy_time::Instant::now().as_millis() }
}

} // verus!
