use vstd::prelude::*;
use crate::error::Error;
use crate::params::SECONDS_PER_HOUR;

verus! {

/// The score velocity cap: when enabled, a wallet's score may move by at most
/// `max_delta_per_hour` points for every whole hour since its previous
/// submission.
#[derive(Clone, Copy, Debug, PartialEq, Eq, Structural)]
pub struct VelocityCap {
    pub enabled: bool,
    pub max_delta_per_hour: u32,
}

/// How far apart two scores are.
pub open spec fn score_distance(a: u32, b: u32) -> int {
    if a >= b { a - b } else { b - a }
}

/// Whole hours from `since` to `now`; none when the clock stands before `since`.
pub open spec fn whole_hours(since: u64, now: u64) -> int {
    if now < since { 0 } else { (now - since) / (SECONDS_PER_HOUR as int) }
}

/// The movement the cap allows between a submission at `since` and one at `now`.
pub open spec fn allowed_delta(cap: VelocityCap, since: u64, now: u64) -> int {
    cap.max_delta_per_hour * whole_hours(since, now)
}

/// The cap refuses a submission when it is enabled, no override was granted,
/// a previous score exists, and the new score moves further from it than
/// allowed. A move of exactly the allowed amount passes.
pub open spec fn velocity_exceeded(
    cap: VelocityCap,
    overridden: bool,
    previous: Option<u32>,
    last_submit: u64,
    score: u32,
    now: u64,
) -> bool {
    &&& cap.enabled
    &&& !overridden
    &&& previous matches Some(prev) && score_distance(score, prev) > allowed_delta(cap, last_submit, now)
}

/// The movement the cap allows, computed with a saturating product.
pub fn allowed_delta_at(cap: VelocityCap, since: u64, now: u64) -> (d: u64)
    ensures
        d == (if allowed_delta(cap, since, now) > u64::MAX {
            u64::MAX as int
        } else {
            allowed_delta(cap, since, now)
        }),
{
    let hours = now.saturating_sub(since) / SECONDS_PER_HOUR;
    match (cap.max_delta_per_hour as u64).checked_mul(hours) {
        Some(d) => d,
        None => u64::MAX,
    }
}

/// Checks a submission against the velocity cap.
pub fn check_velocity(
    cap: VelocityCap,
    overridden: bool,
    previous: Option<u32>,
    last_submit: u64,
    score: u32,
    now: u64,
) -> (r: Result<(), Error>)
    ensures
        r == (if velocity_exceeded(cap, overridden, previous, last_submit, score, now) {
            Err(Error::ScoreVelocityExceeded)
        } else {
            Ok(())
        }),
{
    if !cap.enabled || overridden {
        return Ok(());
    }
    match previous {
        None => Ok(()),
        Some(prev) => {
            let distance: u64 = if score >= prev {
                (score - prev) as u64
            } else {
                (prev - score) as u64
            };
            let allowed = allowed_delta_at(cap, last_submit, now);
            if distance > allowed {
                Err(Error::ScoreVelocityExceeded)
            } else {
                Ok(())
            }
        },
    }
}

} // verus!
