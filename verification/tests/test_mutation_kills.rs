//! Boundary tests of the submission guards: velocity cap, cooldown, score
//! floor, score and confidence ranges.

use ledgerlens_score::contract::{ScoreContract, Submission, WalletRecord};
use ledgerlens_score::error::Error;

const START: u64 = 100_000;

/// An initialized contract and the empty record of one wallet and asset pair
/// ("XLM_USDC"); the ledger starts at a nonzero timestamp.
fn initialized() -> (ScoreContract, WalletRecord, u64) {
    let mut contract = ScoreContract::new();
    contract.initialize().unwrap();
    (contract, WalletRecord::new(), START)
}

fn submission(
    score: u32,
    flagged: bool,
    disputed: bool,
    nonce: u64,
    confidence: u32,
    model_version: u32,
    proof: Option<Vec<u8>>,
) -> Submission {
    Submission { score, flagged, disputed, nonce, confidence, model_version, proof }
}

fn score_of(record: &WalletRecord) -> u32 {
    record.latest_record().unwrap().score
}

/// Velocity cap comparison: a move of exactly the allowed delta passes.
#[test]
fn test_velocity_cap_kill_comparison_operator_boundary() {
    let (mut client, mut record, now) = initialized();
    client.set_score_velocity_cap(true, 10).unwrap();

    // Baseline score
    client.submit_score(&mut record, submission(50, false, false, 1, 90, 1, None), now).unwrap();

    // Advance exactly 1 hour: allowed_delta = 10 points
    let now = now + 3600;
    client.submit_score(&mut record, submission(60, false, false, 2, 90, 1, None), now).unwrap();

    assert_eq!(score_of(&record), 60);
}

/// Velocity cap delta: the allowance is multiplied by the elapsed hours.
#[test]
fn test_velocity_cap_kill_multiplication_in_allowed_delta() {
    let (mut client, mut record, now) = initialized();
    client.set_score_velocity_cap(true, 20).unwrap();

    client.submit_score(&mut record, submission(30, false, false, 1, 90, 1, None), now).unwrap();

    // Advance 2 hours: allowed_delta = 20 * 2 = 40 points
    let now = now + 2 * 3600;
    client.submit_score(&mut record, submission(70, false, false, 2, 90, 1, None), now).unwrap();

    assert_eq!(score_of(&record), 70);
}

/// Velocity cap override lets one submission exceed the cap.
#[test]
fn test_velocity_cap_kill_override_check() {
    let (mut client, mut record, now) = initialized();
    client.set_score_velocity_cap(true, 5).unwrap();

    client.submit_score(&mut record, submission(10, false, false, 1, 90, 1, None), now).unwrap();

    let now = now + 3600;

    // Without override, delta 30 should be rejected (cap is 5)
    let result = client.submit_score(&mut record, submission(40, false, false, 2, 90, 1, None), now);
    assert_eq!(result, Err(Error::ScoreVelocityExceeded));

    // Set override
    client.override_score_velocity_cap(&mut record).unwrap();

    // With override, submission should succeed despite exceeding cap
    client.submit_score(&mut record, submission(40, false, false, 2, 90, 1, None), now).unwrap();

    assert_eq!(score_of(&record), 40);
}

/// Cooldown comparison at its exact boundary.
#[test]
fn test_cooldown_kill_comparison_operator_at_boundary() {
    let (client, mut record, _) = initialized();

    // Initial submission at timestamp 1000
    client.submit_score(&mut record, submission(50, false, false, 1, 90, 1, None), 1000).unwrap();

    // Default cooldown is 3600 seconds (1 hour)
    // At timestamp 4599 (1000 + 3599), submission should fail
    let result = client.submit_score(&mut record, submission(55, false, false, 2, 90, 1, None), 4599);
    assert_eq!(result, Err(Error::RateLimitExceeded));

    // At timestamp 4600 (1000 + 3600), submission should succeed
    client.submit_score(&mut record, submission(55, false, false, 2, 90, 1, None), 4600).unwrap();

    assert_eq!(score_of(&record), 55);
}

/// The first submission is never blocked by the cooldown, and a later one
/// passes again once the cooldown has passed.
#[test]
fn test_cooldown_kill_last_submit_guard() {
    let (client, mut record, _) = initialized();

    // Initial submission at a timestamp lower than the cooldown itself.
    let now = 100;
    client.submit_score(&mut record, submission(50, false, false, 1, 90, 1, None), now).unwrap();

    // Past the cooldown window — resubmission should succeed normally.
    let now = now + 3600;
    client.submit_score(&mut record, submission(52, false, false, 2, 90, 1, None), now).unwrap();

    assert_eq!(score_of(&record), 52);
}

/// Score floor: a score below the floor is refused, the floor value itself passes.
#[test]
fn test_score_floor_kill_comparison_boundary() {
    let (mut client, mut record, now) = initialized();

    // Set floor policy: high_water_mark=80, floor_value=20
    client.set_score_floor_policy(true, 80, 20).unwrap();

    // First submission above high_water_mark
    client.submit_score(&mut record, submission(85, false, false, 1, 90, 1, None), now).unwrap();

    let now = now + 3601;

    // Attempting submission below floor (15 < 20) should fail
    let result = client.submit_score(&mut record, submission(15, false, false, 2, 90, 1, None), now);
    assert_eq!(result, Err(Error::InvalidScore));

    // Attempting submission at floor value (20) should succeed
    client.submit_score(&mut record, submission(20, false, false, 2, 90, 1, None), now).unwrap();

    assert_eq!(score_of(&record), 20);
}

/// Score range validation.
#[test]
fn test_score_range_kill_upper_bound() {
    let (client, mut record, now) = initialized();

    // Attempt to submit score > 100
    let result = client.submit_score(&mut record, submission(101, false, false, 1, 90, 1, None), now);

    assert_eq!(result, Err(Error::InvalidScore));
}

/// Confidence range validation.
#[test]
fn test_confidence_range_kill_upper_bound() {
    let (client, mut record, now) = initialized();

    // Attempt to submit confidence > 100
    let result = client.submit_score(&mut record, submission(50, false, false, 1, 101, 1, None), now);

    assert_eq!(result, Err(Error::InvalidConfidence));
}
