//! The one-shot countdown, run by the engine's own timer.

use vstd::prelude::*;
use bevy::prelude::Timer;
use std::time::Duration;

verus! {

/// Time on a one-shot countdown of `duration` that has run for `elapsed` and
/// runs for `delta` more: it stops at `duration`.
pub open spec fn elapsed_after(duration: u64, elapsed: u64, delta: u64) -> int {
    if elapsed + delta >= duration {
        duration as int
    } else {
        elapsed + delta
    }
}

/// Whether that countdown reaches its duration during `delta`.
pub open spec fn completes(duration: u64, elapsed: u64, delta: u64) -> bool {
    elapsed + delta >= duration
}

/// Runs `Timer::tick` of bevy on a fresh, unpaused, non-repeating timer of
/// `duration_ns` whose elapsed time was set to `elapsed_ns`, and reads back
/// `elapsed` and `just_finished`. All times are nanoseconds.
///
/// Trusted: such a timer adds `delta` to its elapsed time, is finished when
/// that sum has reached its duration, and then holds exactly its duration.
#[verifier::external_body]
pub(crate) fn tick_one_shot(duration_ns: u64, elapsed_ns: u64, delta_ns: u64) -> (ticked: (
    u64,
    bool,
))
    ensures
        ticked.0 == elapsed_after(duration_ns, elapsed_ns, delta_ns),
        ticked.1 == completes(duration_ns, elapsed_ns, delta_ns),
{
    let mut timer = Timer::new(Duration::from_nanos(duration_ns), false);
    timer.set_elapsed(Duration::from_nanos(elapsed_ns));
    timer.tick(Duration::from_nanos(delta_ns));
    (timer.elapsed().as_nanos() as u64, timer.just_finished())
}

} // verus!
