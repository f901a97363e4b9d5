use vstd::prelude::*;

verus! {

/// The score floor for high-risk wallets: once a wallet's score has reached
/// the high-water mark, no later score below the floor value is accepted.
#[derive(Clone, Copy, Debug, PartialEq, Eq, Structural)]
pub struct FloorPolicy {
    pub enabled: bool,
    pub high_water_mark: u32,
    pub floor_value: u32,
}

/// The floor blocks a score when the policy is enabled, the wallet's highest
/// accepted score reached the high-water mark (equal counts), and the new
/// score lies strictly below the floor value.
pub open spec fn floor_blocks(policy: FloorPolicy, historical_max: u32, score: u32) -> bool {
    policy.enabled && historical_max >= policy.high_water_mark && score < policy.floor_value
}

/// Whether the floor blocks `score` for a wallet whose highest accepted score
/// is `historical_max`.
pub fn score_floor_blocks(policy: FloorPolicy, historical_max: u32, score: u32) -> (b: bool)
    ensures
        b == floor_blocks(policy, historical_max, score),
{
    if !policy.enabled {
        return false;
    }
    historical_max >= policy.high_water_mark && score < policy.floor_value
}

} // verus!
