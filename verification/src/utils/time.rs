//! Pauses with a random share.

use rand::Rng;
use vstd::prelude::*;

verus! {

/// `rand::Rng::random_range` on the thread's generator, over the closed range
/// from zero to `limit`. The range is never empty, so the call returns, and
/// the number drawn lies in the range. Which number it is depends on the
/// generator and is left open.
#[verifier::external_body]
fn random_up_to(limit: u64) -> (drawn: u64)
    ensures
        drawn <= limit,
{
    rand::rng().random_range(0..=limit)
}

/// Length of a pause of `base_ms` milliseconds lengthened by a random share
/// of at most `jitter_ms`.
pub fn jittered_delay(base_ms: u64, jitter_ms: u64) -> (delay_ms: u64)
    requires
        base_ms + jitter_ms <= u64::MAX,
    ensures
        base_ms <= delay_ms <= base_ms + jitter_ms,
{
    delay_with_jitter(base_ms, jitter_ms, random_up_to(jitter_ms))
}

/// Adds a jitter that was already drawn to a base delay. The jitter is cut
/// to its bound, so that the pause never exceeds `base_ms + jitter_ms`.
pub fn delay_with_jitter(base_ms: u64, jitter_ms: u64, drawn: u64) -> (delay_ms: u64)
    requires
        base_ms + jitter_ms <= u64::MAX,
    ensures
        delay_ms == base_ms + (if drawn <= jitter_ms { drawn } else { jitter_ms }),
{
    if drawn <= jitter_ms {
        base_ms + drawn
    } else {
        base_ms + jitter_ms
    }
}

} // verus!
