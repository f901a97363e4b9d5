use vstd::prelude::*;
use crate::error::Error;

verus! {

/// Highest score a submission may carry.
pub const MAX_SCORE: u32 = 100;
/// Highest confidence a submission may carry.
pub const MAX_CONFIDENCE: u32 = 100;
/// Highest consensus tolerance `epsilon`.
pub const MAX_CONSENSUS_EPSILON: u32 = 100;
/// The jump threshold lies strictly between zero and this bound.
pub const JUMP_THRESHOLD_BOUND: u32 = 100;
/// Flat cooldown between two submissions for one wallet and asset pair.
pub const DEFAULT_COOLDOWN_SECS: u64 = 3600;
/// Length of the hour over which the velocity cap is granted.
pub const SECONDS_PER_HOUR: u64 = 3600;
/// Time lock of a proposed parameter change.
pub const PARAM_CHANGE_DELAY_SECS: u64 = 86_400;
/// Shortest time lock of a proposed upgrade.
pub const MIN_UPGRADE_DELAY_SECS: u64 = 172_800;
/// Longest time lock of a proposed upgrade.
pub const MAX_UPGRADE_DELAY_SECS: u64 = 1_209_600;
/// Consensus quorum `k` of a freshly initialized contract.
pub const DEFAULT_CONSENSUS_K: u32 = 1;
/// Consensus tolerance `epsilon` of a freshly initialized contract.
pub const DEFAULT_CONSENSUS_EPSILON: u32 = 0;
/// Jump threshold of a freshly initialized contract.
pub const DEFAULT_JUMP_THRESHOLD: u32 = 25;
/// Staleness window of a freshly initialized contract.
pub const DEFAULT_STALENESS_WINDOW_SECS: u64 = 86_400;
/// Token bucket capacity of a freshly initialized contract (one token: the
/// flat cooldown applies).
pub const DEFAULT_BUCKET_CAPACITY: u32 = 1;

/// A consensus configuration asks for at least one agreeing oracle and a
/// tolerance of at most `MAX_CONSENSUS_EPSILON`.
pub open spec fn valid_consensus_config(k: u32, epsilon: u32) -> bool {
    k >= 1 && epsilon <= MAX_CONSENSUS_EPSILON
}

/// A jump threshold lies strictly between zero and `JUMP_THRESHOLD_BOUND`.
pub open spec fn valid_jump_threshold(threshold: u32) -> bool {
    0 < threshold < JUMP_THRESHOLD_BOUND
}

/// A staleness window is positive.
pub open spec fn valid_staleness_window(window: u64) -> bool {
    window > 0
}

/// An upgrade delay lies between the two bounds, both included.
pub open spec fn valid_upgrade_delay(delay: u64) -> bool {
    MIN_UPGRADE_DELAY_SECS <= delay <= MAX_UPGRADE_DELAY_SECS
}

/// Checks a consensus configuration.
pub fn check_consensus_config(k: u32, epsilon: u32) -> (r: Result<(), Error>)
    ensures
        r == (if valid_consensus_config(k, epsilon) {
            Ok(())
        } else {
            Err(Error::InvalidConsensusConfig)
        }),
{
    if k == 0 || epsilon > MAX_CONSENSUS_EPSILON {
        Err(Error::InvalidConsensusConfig)
    } else {
        Ok(())
    }
}

/// Checks a jump threshold.
pub fn check_jump_threshold(threshold: u32) -> (r: Result<(), Error>)
    ensures
        r == (if valid_jump_threshold(threshold) {
            Ok(())
        } else {
            Err(Error::InvalidThreshold)
        }),
{
    if threshold == 0 || threshold >= JUMP_THRESHOLD_BOUND {
        Err(Error::InvalidThreshold)
    } else {
        Ok(())
    }
}

/// Checks a staleness window.
pub fn check_staleness_window(window: u64) -> (r: Result<(), Error>)
    ensures
        r == (if valid_staleness_window(window) {
            Ok(())
        } else {
            Err(Error::InvalidStalenessWindow)
        }),
{
    if window == 0 {
        Err(Error::InvalidStalenessWindow)
    } else {
        Ok(())
    }
}

/// Checks an upgrade delay.
pub fn check_upgrade_delay(delay: u64) -> (r: Result<(), Error>)
    ensures
        r == (if valid_upgrade_delay(delay) {
            Ok(())
        } else {
            Err(Error::InvalidUpgradeDelay)
        }),
{
    if delay < MIN_UPGRADE_DELAY_SECS || delay > MAX_UPGRADE_DELAY_SECS {
        Err(Error::InvalidUpgradeDelay)
    } else {
        Ok(())
    }
}

} // verus!
