//! Tests for set_jump_threshold / get_jump_threshold runtime setter.

use ledgerlens_score::auth::{authorization_for, Authorization};
use ledgerlens_score::contract::{Event, ScoreContract};
use ledgerlens_score::error::Error;

fn setup() -> ScoreContract {
    let mut contract = ScoreContract::new();
    contract.initialize().unwrap();
    contract
}

#[test]
fn test_set_jump_threshold_happy_path() {
    let mut client = setup();
    let empty: Vec<bool> = Vec::new();
    assert_eq!(authorization_for(&empty), Ok(Authorization::RoleHolder));
    client.set_jump_threshold(50).unwrap();
    assert_eq!(client.jump_threshold(), 50);
}

#[test]
fn test_set_jump_threshold_emits_event() {
    let mut c2 = setup();
    let event = c2.set_jump_threshold(45).unwrap();
    assert_eq!(event.topic(), "jt_upd");
    let found = match event {
        Event::JumpThresholdUpdated { threshold } => threshold == 45,
        _ => false,
    };
    assert!(found, "jump_threshold_updated event not emitted");
}

#[test]
fn test_set_jump_threshold_rejects_zero() {
    let mut client = setup();
    let result = client.set_jump_threshold(0);
    assert_eq!(result, Err(Error::InvalidThreshold));
}

#[test]
fn test_set_jump_threshold_rejects_100() {
    let mut client = setup();
    let result = client.set_jump_threshold(100);
    assert_eq!(result, Err(Error::InvalidThreshold));
}

#[test]
fn jump_threshold_bounds_just_inside_are_accepted() {
    let mut client = setup();
    client.set_jump_threshold(1).unwrap();
    assert_eq!(client.jump_threshold(), 1);
    client.set_jump_threshold(99).unwrap();
    assert_eq!(client.jump_threshold(), 99);
    assert_eq!(client.set_jump_threshold(100), Err(Error::InvalidThreshold));
    assert_eq!(client.jump_threshold(), 99);
}

#[test]
fn jump_threshold_needs_initialization() {
    let mut client = ScoreContract::new();
    assert_eq!(client.set_jump_threshold(50), Err(Error::NotInitialized));
}

#[test]
fn signer_lists_are_checked_against_the_role_holder() {
    assert_eq!(authorization_for(&vec![true, true]), Ok(Authorization::EachSigner));
    assert_eq!(authorization_for(&vec![true, false]), Err(Error::Unauthorized));
    assert_eq!(authorization_for(&vec![false]), Err(Error::Unauthorized));
}
