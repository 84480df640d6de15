use mighty_mule_gate::gate::{Gate, GateConfiguration, Relay};
use mighty_mule_gate::ledger::{HoldError, NotFound};
use mighty_mule_gate::state::State;

fn gate(pull_to_open: bool) -> Gate {
    Gate::new(GateConfiguration {
        pull_to_open,
        gpio_motor: 17,
        gpio_cycle_relay: 27,
        gpio_exit_relay: 22,
        gpio_master_orange: 23,
    })
}

#[test]
fn energised_position_line_reads_closed_without_pull_to_open() {
    let mut g = gate(false);
    g.observe(0, false, true);
    assert_eq!(g.get_state(), State::CLOSED);
}

#[test]
fn opening_a_closed_gate_pulses_the_exit_relay_once() {
    let mut g = gate(false);
    g.observe(0, false, true);
    assert!(g.change_state(State::OPEN));
    // One pulse on the exit relay, and afterwards none pending on either.
    assert_eq!(g.take_pulse(), Some(Relay::Exit));
    assert_eq!(g.take_pulse(), None);
}

#[test]
fn closing_an_open_gate_pulses_the_cycle_relay() {
    let mut g = gate(false);
    g.observe(0, false, false);
    assert_eq!(g.get_state(), State::OPEN);
    assert!(g.change_state(State::CLOSED));
    assert_eq!(g.take_pulse(), Some(Relay::Cycle));
}

#[test]
fn requesting_the_current_state_succeeds_without_a_pulse() {
    let mut g = gate(false);
    g.observe(0, false, true);
    assert!(g.change_state(State::CLOSED));
    assert_eq!(g.take_pulse(), None);
}

#[test]
fn a_moving_gate_refuses_requests() {
    let mut g = gate(false);
    g.observe(0, true, false);
    assert_eq!(g.get_state(), State::MOVING);
    assert!(!g.change_state(State::OPEN));
    assert_eq!(g.take_pulse(), None);
}

#[test]
fn moving_is_not_a_requestable_target() {
    let mut g = gate(false);
    g.observe(0, false, true);
    assert!(!g.change_state(State::MOVING));
    assert_eq!(g.take_pulse(), None);
}

#[test]
fn a_held_gate_refuses_even_the_matching_state() {
    let mut g = gate(false);
    g.observe(0, false, true);
    g.hold_state(State::CLOSED, 60_000).unwrap();
    assert!(!g.change_state(State::CLOSED));
    assert_eq!(g.take_pulse(), None);
    assert!(!g.change_state(State::OPEN));
    assert_eq!(g.take_pulse(), None);
}

#[test]
fn holding_open_raises_the_exit_relay_for_the_holds_duration() {
    let mut g = gate(false);
    g.observe(0, false, true);
    assert!(!g.exit_relay_level());
    let id = g.hold_state(State::OPEN, 60_000).unwrap();
    assert_eq!(id.len(), 36);
    assert!(g.exit_relay_level());
    assert_eq!(g.take_pulse(), None);
    assert_eq!(g.get_locked_state(), Some(State::OPEN));
}

#[test]
fn hold_identifiers_are_hyphenated() {
    let mut g = gate(false);
    g.observe(0, false, true);
    let id = g.hold_state(State::OPEN, 60_000).unwrap();
    assert_eq!(id.len(), 36);
    for (i, c) in id.chars().enumerate() {
        if i == 8 || i == 13 || i == 18 || i == 23 {
            assert_eq!(c, '-');
        } else {
            assert!(c.is_ascii_hexdigit());
        }
    }
}

#[test]
fn holding_closed_pulses_an_open_gate_shut() {
    let mut g = gate(false);
    g.observe(0, false, false);
    assert_eq!(g.get_state(), State::OPEN);
    g.hold_state(State::CLOSED, 60_000).unwrap();
    assert_eq!(g.take_pulse(), Some(Relay::Cycle));
    assert!(!g.exit_relay_level());
}

#[test]
fn holding_closed_leaves_a_closed_gate_alone() {
    let mut g = gate(false);
    g.observe(0, false, true);
    g.hold_state(State::CLOSED, 60_000).unwrap();
    assert_eq!(g.take_pulse(), None);
}

#[test]
fn conflicting_hold_is_rejected() {
    let mut g = gate(false);
    g.observe(0, false, true);
    g.hold_state(State::OPEN, 60_000).unwrap();
    assert_eq!(g.hold_state(State::CLOSED, 60_000), Err(HoldError::ConflictingHold));
    // The rejection had no side effect on the ledger or the relay.
    assert_eq!(g.get_state_locks().len(), 1);
    assert!(g.exit_relay_level());
}

#[test]
fn same_state_holds_coexist_and_expire_independently() {
    let mut g = gate(false);
    g.observe(1_000, false, true);
    g.hold_state(State::OPEN, 5_000).unwrap();
    g.hold_state(State::OPEN, 9_000).unwrap();
    assert_eq!(g.get_state_locks().len(), 2);
    // After the first expiry, still held open.
    g.observe(7_000, false, true);
    g.sync();
    assert_eq!(g.get_state_locks().len(), 1);
    assert!(g.exit_relay_level());
    assert_eq!(g.get_locked_state(), Some(State::OPEN));
    // Only once both have expired does the ledger empty and the relay drop.
    g.observe(10_000, false, true);
    g.sync();
    assert_eq!(g.get_state_locks().len(), 0);
    assert!(!g.exit_relay_level());
    assert_eq!(g.get_locked_state(), None);
}

#[test]
fn holding_moving_is_always_invalid() {
    let mut g = gate(false);
    g.observe(0, false, true);
    assert_eq!(g.hold_state(State::MOVING, 60_000), Err(HoldError::InvalidLockState));
    g.hold_state(State::OPEN, 60_000).unwrap();
    assert_eq!(g.hold_state(State::MOVING, 60_000), Err(HoldError::InvalidLockState));
}

#[test]
fn zero_ttl_hold_is_swept_at_any_later_instant() {
    let mut g = gate(false);
    g.observe(4_000, false, true);
    g.hold_state(State::OPEN, 0).unwrap();
    assert!(g.exit_relay_level());
    g.observe(4_001, false, true);
    g.sync();
    assert_eq!(g.get_state_locks().len(), 0);
    assert!(!g.exit_relay_level());
}

#[test]
fn hold_expiry_is_the_observed_instant_plus_ttl() {
    let mut g = gate(false);
    g.observe(2_500, false, true);
    g.hold_state(State::CLOSED, 1_500).unwrap();
    let locks = g.get_state_locks();
    assert_eq!(locks[0].expires(), 4_000);
}

#[test]
fn deleting_an_unknown_lock_changes_nothing() {
    let mut g = gate(false);
    g.observe(0, false, true);
    g.hold_state(State::OPEN, 60_000).unwrap();
    assert_eq!(g.delete_lock("11111111-2222-3333-4444-555555555555"), Err(NotFound));
    assert_eq!(g.get_state_locks().len(), 1);
    assert!(g.exit_relay_level());
}

#[test]
fn deleting_the_last_open_hold_releases_the_exit_relay() {
    let mut g = gate(false);
    g.observe(0, false, true);
    let first = g.hold_state(State::OPEN, 60_000).unwrap();
    let second = g.hold_state(State::OPEN, 60_000).unwrap();
    assert_eq!(g.delete_lock(&first), Ok(()));
    assert!(g.exit_relay_level());
    assert_eq!(g.delete_lock(&second), Ok(()));
    assert!(!g.exit_relay_level());
    assert_eq!(g.get_locked_state(), None);
}

#[test]
fn a_fresh_ledger_accepts_a_new_state_after_expiry() {
    let mut g = gate(false);
    g.observe(0, false, true);
    g.hold_state(State::OPEN, 1_000).unwrap();
    g.observe(2_000, false, true);
    // The expired hold no longer conflicts: hold_state sweeps first.
    let r = g.hold_state(State::CLOSED, 1_000);
    assert!(r.is_ok());
    assert_eq!(g.get_locked_state(), Some(State::CLOSED));
    assert!(!g.exit_relay_level());
}
