use vstd::prelude::*;

verus! {

/// Whether the blink flash is on at `elapsed_ms` since the loop started.
///
/// While the elapsed time has not passed `duration_ms`, the flash toggles
/// every `rate_ms`: it is on in the even half-periods (so it is on at time
/// zero).  Once the elapsed time passes `duration_ms` the flash is off, and
/// since elapsed time only grows it never comes back on.
pub open spec fn spec_blink_on(elapsed_ms: u64, duration_ms: u64, rate_ms: u64) -> bool
    recommends
        rate_ms > 0,
{
    elapsed_ms <= duration_ms && (elapsed_ms as int / rate_ms as int) % 2 == 0
}

/// Compute the blink state at a given elapsed time.
pub fn blink_on_at(elapsed_ms: u64, duration_ms: u64, rate_ms: u64) -> (b: bool)
    requires
        rate_ms > 0,
    ensures
        b == spec_blink_on(elapsed_ms, duration_ms, rate_ms),
{
    elapsed_ms <= duration_ms && (elapsed_ms / rate_ms) % 2 == 0
}

/// Law: blinking is monotonic.  Past the blink duration the flash is off,
/// at every later instant, whatever the rate.
pub proof fn lemma_blink_stays_off(elapsed_ms: u64, duration_ms: u64, rate_ms: u64)
    requires
        elapsed_ms > duration_ms,
    ensures
        !spec_blink_on(elapsed_ms, duration_ms, rate_ms),
{
}

} // verus!
