//! The timing of a note's fade-out: after a short sustain the volume falls in a
//! fixed number of equal steps spread over the release time.

use vstd::prelude::*;

verus! {

/// The number of steps in which a note fades out.
pub const RELEASE_STEPS: u64 = 100;

/// How long a note is held at full volume before it fades, in nanoseconds (50 ms).
pub const SUSTAIN_TIME: u64 = 50_000_000;

/// The pause between two fade-out steps, in nanoseconds, for a release lasting
/// `release_time` nanoseconds.
pub open spec fn spec_release_step_interval(release_time: u64) -> u64 {
    release_time / RELEASE_STEPS
}

/// Returns the pause between two fade-out steps, in nanoseconds, for a release
/// lasting `release_time` nanoseconds: the release time divided by the number of
/// steps, rounded down to the nanosecond.
pub fn release_step_interval(release_time: u64) -> (d: u64)
    ensures
        d == spec_release_step_interval(release_time),
{
    release_time / RELEASE_STEPS
}

/// The fade-out never outlasts the release time, and falls short of it by less
/// than one step's worth of nanoseconds.
pub proof fn law_fade_fits_release(release_time: u64)
    ensures
        RELEASE_STEPS * spec_release_step_interval(release_time) <= release_time,
        release_time < RELEASE_STEPS * spec_release_step_interval(release_time) + RELEASE_STEPS,
{
}

} // verus!
