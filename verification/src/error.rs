use vstd::prelude::*;

verus! {

/// The errors that the contract answers a refused request with.
#[derive(Clone, Copy, Debug, PartialEq, Eq, Structural)]
pub enum Error {
    /// The contract has not been initialized yet.
    NotInitialized,
    /// `initialize` was called on an initialized contract.
    AlreadyInitialized,
    /// A signer list names an account that holds no authority here.
    Unauthorized,
    /// The score is above the maximum, or below the floor of a wallet that
    /// once reached the high-water mark.
    InvalidScore,
    /// No score was ever accepted for the wallet and asset pair.
    ScoreNotFound,
    /// The confidence is above the maximum.
    InvalidConfidence,
    /// The submission comes too early for the rate limit.
    RateLimitExceeded,
    /// The score moves further than the velocity cap allows.
    ScoreVelocityExceeded,
    /// `k` is zero or `epsilon` is above the maximum.
    InvalidConsensusConfig,
    /// The jump threshold is outside its open range.
    InvalidThreshold,
    /// The staleness window is zero.
    InvalidStalenessWindow,
    /// The token bucket capacity is zero.
    InvalidRateLimitCapacity,
    /// No change of the named parameter is pending.
    NoPendingParamChange,
    /// The pending parameter change is still inside its time lock.
    ParamChangeNotReady,
    /// An upgrade is already proposed.
    UpgradeAlreadyPending,
    /// No upgrade is proposed.
    NoPendingUpgrade,
    /// The proposed upgrade is still inside its time lock.
    UpgradeNotReady,
    /// The upgrade delay is outside its bounds.
    InvalidUpgradeDelay,
}

} // verus!
