use mighty_mule_gate::ledger::{HoldError, LockLedger, NotFound};
use mighty_mule_gate::state::State;

#[test]
fn insert_records_expiry_and_pins_state() {
    let mut ledger = LockLedger::new();
    assert_eq!(ledger.locked_state(), None);
    let id = ledger.insert(State::OPEN, 1_000, 5_000).unwrap();
    assert_eq!(id.len(), 36);
    assert_eq!(ledger.len(), 1);
    assert_eq!(ledger.locked_state(), Some(State::OPEN));
    let holds = ledger.holds();
    assert_eq!(holds.len(), 1);
    assert_eq!(holds[0].expires(), 6_000);
    assert_eq!(holds[0].id(), id);
}

#[test]
fn insert_expiry_saturates() {
    let mut ledger = LockLedger::new();
    ledger.insert(State::CLOSED, u64::MAX - 5, 10_000).unwrap();
    assert_eq!(ledger.holds()[0].expires(), u64::MAX);
}

#[test]
fn insert_refuses_moving() {
    let mut ledger = LockLedger::new();
    assert_eq!(ledger.insert(State::MOVING, 0, 10), Err(HoldError::InvalidLockState));
    assert_eq!(ledger.len(), 0);
}

#[test]
fn insert_refuses_a_different_state() {
    let mut ledger = LockLedger::new();
    ledger.insert(State::OPEN, 0, 10).unwrap();
    assert_eq!(ledger.insert(State::CLOSED, 0, 10), Err(HoldError::ConflictingHold));
    assert_eq!(ledger.len(), 1);
    assert!(ledger.insert(State::OPEN, 0, 10).is_ok());
    assert_eq!(ledger.len(), 2);
}

#[test]
fn remove_takes_out_exactly_the_named_hold() {
    let mut ledger = LockLedger::new();
    let first = ledger.insert(State::OPEN, 0, 10).unwrap();
    let second = ledger.insert(State::OPEN, 0, 20).unwrap();
    assert_eq!(ledger.remove("no-such-id"), Err(NotFound));
    assert_eq!(ledger.len(), 2);
    assert_eq!(ledger.remove(&first), Ok(()));
    assert_eq!(ledger.len(), 1);
    assert_eq!(ledger.holds()[0].id(), second);
    assert_eq!(ledger.remove(&first), Err(NotFound));
}

#[test]
fn sweep_reports_the_emptying_edge() {
    let mut ledger = LockLedger::new();
    ledger.insert(State::CLOSED, 100, 50).unwrap();
    ledger.insert(State::CLOSED, 100, 60).unwrap();
    // Nothing has expired yet.
    assert!(!ledger.sweep(100));
    assert_eq!(ledger.len(), 2);
    // The first hold expires at 150, the second at 160.
    assert!(!ledger.sweep(155));
    assert_eq!(ledger.len(), 1);
    assert!(ledger.sweep(160));
    assert_eq!(ledger.len(), 0);
    // Sweeping an empty ledger is no edge.
    assert!(!ledger.sweep(200));
}
