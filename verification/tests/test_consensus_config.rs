//! Tests for `set_consensus_config`.

use ledgerlens_score::contract::ScoreContract;
use ledgerlens_score::error::Error;

fn setup() -> ScoreContract {
    let mut contract = ScoreContract::new();
    contract.initialize().unwrap();
    contract
}

#[test]
fn test_set_consensus_config_happy_path() {
    let mut client = setup();
    client.set_consensus_config(3, 10).unwrap();
    assert_eq!(client.consensus_config(), (3, 10));
}

#[test]
fn test_set_consensus_config_updates_both_atomically() {
    let mut client = setup();
    client.set_consensus_config(2, 5).unwrap();
    assert_eq!(client.consensus_config(), (2, 5));
    // Override with new values — both change together.
    client.set_consensus_config(5, 20).unwrap();
    assert_eq!(client.consensus_config(), (5, 20));
}

#[test]
fn test_set_consensus_config_boundary_values() {
    let mut client = setup();
    // k=1 and epsilon=0 are the lowest valid values.
    client.set_consensus_config(1, 0).unwrap();
    assert_eq!(client.consensus_config(), (1, 0));
    // epsilon=100 is the highest valid value.
    client.set_consensus_config(1, 100).unwrap();
    assert_eq!(client.consensus_config(), (1, 100));
}

#[test]
fn test_set_consensus_config_k_zero_rejected() {
    let mut client = setup();
    let result = client.set_consensus_config(0, 5);
    assert_eq!(result, Err(Error::InvalidConsensusConfig));
}

#[test]
fn test_set_consensus_config_epsilon_over_100_rejected() {
    let mut client = setup();
    let result = client.set_consensus_config(2, 101);
    assert_eq!(result, Err(Error::InvalidConsensusConfig));
}

#[test]
fn test_set_consensus_config_not_initialized() {
    let mut client = ScoreContract::new();
    let result = client.set_consensus_config(2, 5);
    assert_eq!(result, Err(Error::NotInitialized));
}

#[test]
fn consensus_config_refusal_keeps_previous_values() {
    let mut client = setup();
    client.set_consensus_config(4, 7).unwrap();
    assert_eq!(client.set_consensus_config(0, 7), Err(Error::InvalidConsensusConfig));
    assert_eq!(client.set_consensus_config(4, 101), Err(Error::InvalidConsensusConfig));
    assert_eq!(client.consensus_config(), (4, 7));
}

#[test]
fn initialize_twice_is_refused() {
    let mut client = setup();
    assert_eq!(client.initialize(), Err(Error::AlreadyInitialized));
    assert!(client.initialized);
}
