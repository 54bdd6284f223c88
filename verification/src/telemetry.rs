//! Throughput and memory figures gathered around one generation loop.

use vstd::prelude::*;

verus! {

#[verifier::external_type_specification]
#[verifier::external_body]
pub struct ExInstant(std::time::Instant);

/// Relies on `std::time::Instant::now`: an opaque reading of a monotonic
/// clock. Nothing is promised of it; the clock decides.
pub assume_specification[ std::time::Instant::now ]() -> std::time::Instant;

/// Relies on `std::time::Instant::elapsed`: the wall time since the
/// instant, as an opaque duration. Nothing is promised of it.
pub assume_specification[ std::time::Instant::elapsed ](
    start: &std::time::Instant,
) -> std::time::Duration;

/// Relies on `core::time::Duration::as_micros`: the duration in whole
/// microseconds. The value depends on the clock readings alone, of which
/// nothing is promised, so nothing is promised of it either; the
/// throughput computation takes it as a plain argument.
pub assume_specification[ core::time::Duration::as_micros ](d: &core::time::Duration) -> u128;

/// Relies on `memory_stats::memory_stats`: a best-effort sample of this
/// process's current resident ("physical") memory, `None` where the
/// platform cannot report it. The sample depends on the machine, so
/// nothing is promised of the value.
#[verifier::external_body]
pub(crate) fn physical_memory() -> (r: Option<usize>) {
    memory_stats::memory_stats().map(|s| s.physical_mem)
}

/// Figures gathered around one generation: the backend's produced-token
/// count, the warmup-adjusted elapsed wall time, the throughput derived
/// from the two, and resident-memory samples at loop entry and exit
/// (absent where sampling failed; sampling failure never fails the
/// generation).
pub struct Telemetry {
    pub generated: usize,
    pub elapsed_micros: u128,
    pub tokens_per_sec: Option<u128>,
    pub mem_before: Option<usize>,
    pub mem_after: Option<usize>,
}

/// Microseconds per second, the scale used by [`tokens_per_sec`].
pub const MICROS_PER_SEC: u128 = 1_000_000;

/// What a reported throughput must look like: unavailable exactly when
/// fewer than two tokens were produced or no wall time elapsed, and
/// otherwise the warmup-adjusted whole-tokens-per-second figure.
///
/// The first produced token is warmup, so it is excluded from the
/// numerator; the elapsed time is measured from just after it.
pub open spec fn throughput_matches(generated: int, elapsed_micros: int, r: Option<u128>) -> bool {
    &&& (r is None <==> generated <= 1 || elapsed_micros == 0)
    &&& (r matches Some(v) ==> v == (generated - 1) * MICROS_PER_SEC / elapsed_micros)
}

/// Tokens per second over a whole generation, as a whole number, with the
/// warmup token excluded from the count. Returns `None` rather than ever
/// dividing by a zero elapsed duration or underflowing on a count of zero.
pub fn tokens_per_sec(generated: usize, elapsed_micros: u128) -> (r: Option<u128>)
    ensures
        throughput_matches(generated as int, elapsed_micros as int, r),
{
    if generated <= 1 || elapsed_micros == 0 {
        None
    } else {
        let scaled: u128 = (generated - 1) as u128 * MICROS_PER_SEC;
        Some(scaled / elapsed_micros)
    }
}

} // verus!
