//! Tests for set_staleness_window / get_staleness_window.

use ledgerlens_score::contract::{Event, ScoreContract};
use ledgerlens_score::error::Error;
use ledgerlens_score::governance::ParamKey;

const START: u64 = 0;

fn setup() -> ScoreContract {
    let mut contract = ScoreContract::new();
    contract.initialize().unwrap();
    contract
}

#[test]
fn test_set_staleness_window_happy_path() {
    let mut client = setup();
    client.set_staleness_window(3_600, START).unwrap();
    // set_staleness_window is time-locked; advance past the delay and apply it.
    let key = ParamKey::from_name("stale_w").unwrap();
    client.apply_param_change(key, START + 86_401).unwrap();
    assert_eq!(client.staleness_window(), 3_600);
}

#[test]
fn test_set_staleness_window_emits_event() {
    let mut c2 = setup();
    let event = c2.set_staleness_window(7_200, START).unwrap();
    // set_staleness_window proposes via the generic timelock, emitting
    // `param_change_proposed` (topic "pc_prop") rather than an immediate update.
    assert_eq!(event.topic(), "pc_prop");
    let found = match event {
        Event::ParamChangeProposed { key, apply_after: _ } => key.name() == "stale_w",
        _ => false,
    };
    assert!(found, "param_change_proposed event not emitted for stale_w");
}

#[test]
fn test_set_staleness_window_rejects_zero() {
    let mut client = setup();
    let result = client.set_staleness_window(0, START);
    assert_eq!(result, Err(Error::InvalidStalenessWindow));
}

#[test]
fn staleness_window_waits_for_the_time_lock() {
    let mut client = setup();
    let before = client.staleness_window();
    let event = client.set_staleness_window(3_600, START).unwrap();
    assert_eq!(
        event,
        Event::ParamChangeProposed { key: ParamKey::StalenessWindow, apply_after: START + 86_400 }
    );
    assert_eq!(
        client.apply_param_change(ParamKey::StalenessWindow, START + 86_399),
        Err(Error::ParamChangeNotReady)
    );
    assert_eq!(client.staleness_window(), before);
    client.apply_param_change(ParamKey::StalenessWindow, START + 86_400).unwrap();
    assert_eq!(client.staleness_window(), 3_600);
    assert_eq!(
        client.apply_param_change(ParamKey::StalenessWindow, START + 90_000),
        Err(Error::NoPendingParamChange)
    );
}

#[test]
fn staleness_proposal_saturates_at_the_end_of_time() {
    let mut client = setup();
    let event = client.set_staleness_window(10, u64::MAX - 5).unwrap();
    assert_eq!(
        event,
        Event::ParamChangeProposed { key: ParamKey::StalenessWindow, apply_after: u64::MAX }
    );
}

#[test]
fn unknown_parameter_names_are_not_keys() {
    assert_eq!(ParamKey::from_name("stale_x"), None);
    assert_eq!(ParamKey::from_name(""), None);
    assert_eq!(ParamKey::from_name("stale_w"), Some(ParamKey::StalenessWindow));
}
