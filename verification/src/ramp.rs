//! The clamped scalar accumulator that every puzzle element uses for
//! debounced activation: a fixed-point value that rises or falls at a
//! fixed rate and never leaves its declared bounds.
use vstd::prelude::*;

verus! {

/// Fixed-point scale: one logical unit (a full ramp) in micro-steps.
pub const UNIT: u64 = 1000000;

/// The mathematical value of one ramp step: the current value moved by
/// `rate * delta_ms` in the direction given by `rising`, clamped to `[lo, hi]`.
pub open spec fn ramp_step(current: u64, delta_ms: u64, rate: u64, rising: bool, lo: u64, hi: u64) -> int {
    let moved: int = if rising {
        current + rate * delta_ms
    } else {
        current - rate * delta_ms
    };
    if moved < lo {
        lo as int
    } else if moved > hi {
        hi as int
    } else {
        moved
    }
}

/// One tick of a ramp run: how long, how fast, and in which direction.
pub struct RampStep {
    pub delta_ms: u64,
    pub rate: u64,
    pub rising: bool,
}

/// The value a ramp holds after a whole run of ticks.
pub open spec fn ramp_run(current: u64, steps: Seq<RampStep>, lo: u64, hi: u64) -> int
    decreases steps.len(),
{
    if steps.len() == 0 {
        current as int
    } else {
        let next = ramp_step(current, steps[0].delta_ms, steps[0].rate, steps[0].rising, lo, hi);
        ramp_run(next as u64, steps.drop_first(), lo, hi)
    }
}

/// A ramp never leaves its declared bounds, whatever the deltas, rates and
/// directions of the run and however many ticks it lasts.
pub proof fn lemma_ramp_bounded(current: u64, steps: Seq<RampStep>, lo: u64, hi: u64)
    requires
        lo <= current <= hi,
    ensures
        lo <= ramp_run(current, steps, lo, hi) <= hi,
    decreases steps.len(),
{
    if steps.len() > 0 {
        let next = ramp_step(current, steps[0].delta_ms, steps[0].rate, steps[0].rising, lo, hi);
        lemma_ramp_bounded(next as u64, steps.drop_first(), lo, hi);
    }
}

/// Advance a clamped accumulator by one tick.
///
/// `rate` is in micro-steps per millisecond, so a ramp documented as
/// `r` units per second is passed as `r * 1000`.
pub fn advance(current: u64, delta_ms: u64, rate: u64, rising: bool, lo: u64, hi: u64) -> (r: u64)
    requires
        lo <= current <= hi,
    ensures
        r == ramp_step(current, delta_ms, rate, rising, lo, hi),
        lo <= r <= hi,
{
    let step = rate.checked_mul(delta_ms);
    match step {
        None => {
            // The true step exceeds u64::MAX, so it saturates the ramp.
            if rising { hi } else { lo }
        }
        Some(step) => {
            if rising {
                if step >= hi - current {
                    hi
                } else {
                    current + step
                }
            } else {
                if step >= current - lo {
                    lo
                } else {
                    current - step
                }
            }
        }
    }
}

} // verus!
