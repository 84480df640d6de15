//! Gate controller: a state machine that composes the state deriver,
//! the transition driver and the lock ledger.
//!
//! The controller is a pure state machine over plain values. The platform
//! layer around it reads the two GPIO sense lines and the clock and reports
//! them through [`Gate::observe`]; after each mutating operation it collects
//! the relay command to perform: a one-shot pulse from [`Gate::take_pulse`],
//! and the steady level of the exit relay from [`Gate::exit_relay_level`]
//! (held high for the whole duration of an `OPEN` hold). Every transition
//! decision below is specified against [`GateModel`], the mathematical model
//! of the controller.

use vstd::prelude::*;
use crate::state::{State, derive_state, spec_derive};
use crate::ledger::{
    HoldError,
    LedgerModel,
    LockLedger,
    LockModel,
    LockStateLock,
    NotFound,
    sat_add,
    spec_find,
    spec_sweep,
};

verus! {

/// The two relays the motor controller exposes. `Cycle` toggles (and is used
/// to drive a gate closed); `Exit` forces an open-direction motion.
#[derive(Copy, Clone, Debug, PartialEq, Eq, Structural)]
pub enum Relay {
    Cycle,
    Exit,
}

/// Immutable wiring description, consumed once at construction: the polarity
/// of the position-sense line and the four GPIO line offsets. The line
/// offsets are carried for the platform layer that owns the hardware; the
/// controller's logic reads only `pull_to_open`.
pub struct GateConfiguration {
    pub pull_to_open: bool,
    pub gpio_motor: u32,
    pub gpio_cycle_relay: u32,
    pub gpio_exit_relay: u32,
    pub gpio_master_orange: u32,
}

/// Mathematical model of the controller: the wiring polarity, the last
/// observed signal levels and clock instant, the ledger, the steady exit
/// relay level, and the pulse requested by the most recent transition
/// operation.
#[verifier::ext_equal]
pub ghost struct GateModel {
    pub pull_to_open: bool,
    pub motor_sense: bool,
    pub position_sense: bool,
    pub now: u64,
    pub ledger: LedgerModel,
    pub exit_relay: bool,
    pub pending_pulse: Option<Relay>,
}

/// The state derived from the model's last observed signal levels.
pub open spec fn spec_current(g: GateModel) -> State {
    spec_derive(g.motor_sense, g.position_sense, g.pull_to_open)
}

/// Effect of `sync`: sweep expired holds at the observed instant, and drop
/// the exit relay once no hold pins anything open any more.
pub open spec fn spec_sync(g: GateModel) -> GateModel {
    let locks = spec_sweep(g.ledger.locks, g.now);
    GateModel {
        ledger: LedgerModel { locks, locked_state: g.ledger.locked_state },
        exit_relay: if locks.len() == 0 && g.ledger.locked_state == State::OPEN {
            false
        } else {
            g.exit_relay
        },
        ..g
    }
}

/// The pulse a transition request issues: none while a move is in flight,
/// when `MOVING` is requested, or when the current state already equals the
/// desired state; otherwise the exit relay opens and the cycle relay closes.
pub open spec fn spec_move_pulse(g: GateModel, desired_state: State) -> Option<Relay> {
    let cur = spec_current(g);
    if cur == State::MOVING || desired_state == State::MOVING || cur == desired_state {
        None
    } else if desired_state == State::OPEN {
        Some(Relay::Exit)
    } else {
        Some(Relay::Cycle)
    }
}

/// Effect and result of `change_state`: after the sweep, a locked gate
/// refuses; otherwise the request succeeds unless a move is in flight or
/// `MOVING` is the target, pulsing per `spec_move_pulse`.
pub open spec fn spec_change_state(g: GateModel, desired_state: State) -> (GateModel, bool) {
    let g1 = spec_sync(g);
    if g1.ledger.locks.len() > 0 {
        (GateModel { pending_pulse: None, ..g1 }, false)
    } else {
        (
            GateModel { pending_pulse: spec_move_pulse(g1, desired_state), ..g1 },
            spec_current(g1) != State::MOVING && desired_state != State::MOVING,
        )
    }
}

/// Why `hold_state` rejects a request, if it does: `MOVING` can never be
/// held, and a ledger that (after the sweep) still pins a different state
/// refuses to change it.
pub open spec fn spec_hold_error(g: GateModel, desired_state: State) -> Option<HoldError> {
    let g1 = spec_sync(g);
    if desired_state == State::MOVING {
        Some(HoldError::InvalidLockState)
    } else if g1.ledger.locks.len() > 0 && desired_state != g.ledger.locked_state {
        Some(HoldError::ConflictingHold)
    } else {
        None
    }
}

/// The controller after a rejected hold request: the sweep has still run,
/// and no pulse was issued.
pub open spec fn spec_hold_fail(g: GateModel) -> GateModel {
    GateModel { pending_pulse: None, ..spec_sync(g) }
}

/// The controller after a successful hold for `desired_state` under the
/// fresh identifier `id`: the hold expires at `now + ttl` (saturating). An
/// `OPEN` hold raises the exit relay and keeps it high; a `CLOSED` hold
/// pulses the cycle relay once unless the current state is CLOSED or MOVING.
pub open spec fn spec_hold_apply(
    g: GateModel,
    desired_state: State,
    ttl: u64,
    id: Seq<char>,
) -> GateModel {
    let g1 = spec_sync(g);
    let locks = g1.ledger.locks.push(LockModel { id, expires: sat_add(g.now, ttl) });
    let cur = spec_current(g);
    if desired_state == State::OPEN {
        GateModel {
            ledger: LedgerModel { locks, locked_state: State::OPEN },
            exit_relay: true,
            pending_pulse: None,
            ..g1
        }
    } else {
        GateModel {
            ledger: LedgerModel { locks, locked_state: State::CLOSED },
            pending_pulse: if cur != State::CLOSED && cur != State::MOVING {
                Some(Relay::Cycle)
            } else {
                None
            },
            ..g1
        }
    }
}

/// Effect and result of `delete_lock`: the first hold carrying `id` leaves
/// the ledger, and the exit relay drops once no open-pinning hold is left; an
/// unknown identifier changes nothing.
pub open spec fn spec_delete(g: GateModel, id: Seq<char>) -> (GateModel, bool) {
    let idx = spec_find(g.ledger.locks, id);
    if idx == -1 {
        (g, false)
    } else {
        let locks = g.ledger.locks.remove(idx);
        (
            GateModel {
                ledger: LedgerModel { locks, locked_state: g.ledger.locked_state },
                exit_relay: if locks.len() == 0 && g.ledger.locked_state == State::OPEN {
                    false
                } else {
                    g.exit_relay
                },
                ..g
            },
            true,
        )
    }
}

/// The controller's invariant: the ledger never pins `MOVING`, and the exit
/// relay is held high exactly while an OPEN hold is active.
pub open spec fn gate_wf(g: GateModel) -> bool {
    &&& g.ledger.locked_state != State::MOVING
    &&& (g.exit_relay <==> (g.ledger.locks.len() > 0 && g.ledger.locked_state == State::OPEN))
}

/// A gate controller. There is one per process; all mutation goes
/// through the operations below, serialized by whoever owns the value.
pub struct Gate {
    pull_to_open: bool,
    motor_sense: bool,
    position_sense: bool,
    now: u64,
    ledger: LockLedger,
    exit_relay: bool,
    pending_pulse: Option<Relay>,
}

impl View for Gate {
    type V = GateModel;

    closed spec fn view(&self) -> GateModel {
        GateModel {
            pull_to_open: self.pull_to_open,
            motor_sense: self.motor_sense,
            position_sense: self.position_sense,
            now: self.now,
            ledger: self.ledger@,
            exit_relay: self.exit_relay,
            pending_pulse: self.pending_pulse,
        }
    }
}

impl Gate {
    pub open spec fn wf(self) -> bool {
        gate_wf(self@)
    }

    /// A controller for the wiring in `config`: no holds, relays released,
    /// and no signals observed yet.
    pub fn new(config: GateConfiguration) -> (g: Gate)
        ensures
            g@ == (GateModel {
                pull_to_open: config.pull_to_open,
                motor_sense: false,
                position_sense: false,
                now: 0,
                ledger: LedgerModel {
                    locks: Seq::<LockModel>::empty(),
                    locked_state: State::CLOSED,
                },
                exit_relay: false,
                pending_pulse: None,
            }),
            g.wf(),
    {
        let g = Gate {
            pull_to_open: config.pull_to_open,
            motor_sense: false,
            position_sense: false,
            now: 0,
            ledger: LockLedger::new(),
            exit_relay: false,
            pending_pulse: None,
        };
        proof {
            assert(g@ =~= (GateModel {
                pull_to_open: config.pull_to_open,
                motor_sense: false,
                position_sense: false,
                now: 0,
                ledger: LedgerModel {
                    locks: Seq::<LockModel>::empty(),
                    locked_state: State::CLOSED,
                },
                exit_relay: false,
                pending_pulse: None,
            }));
        }
        g
    }

    /// Report the current clock instant (milliseconds) and the levels of the
    /// two sense lines. The platform layer calls this before each operation,
    /// in place of the hardware reads the controller cannot perform itself.
    pub fn observe(&mut self, now: u64, motor_sense: bool, position_sense: bool)
        requires
            old(self).wf(),
        ensures
            final(self).wf(),
            final(self)@ == (GateModel { now, motor_sense, position_sense, ..old(self)@ }),
    {
        self.now = now;
        self.motor_sense = motor_sense;
        self.position_sense = position_sense;
    }

    /// The state derived from the last observed signal levels.
    pub fn get_state(&self) -> (s: State)
        ensures
            s == spec_current(self@),
    {
        derive_state(self.motor_sense, self.position_sense, self.pull_to_open)
    }

    /// A snapshot of the holds currently in the ledger.
    pub fn get_state_locks(&self) -> (v: Vec<LockStateLock>)
        ensures
            v@.map_values(|l: LockStateLock| l@) == self@.ledger.locks,
    {
        self.ledger.holds()
    }

    /// The state the holds enforce: `None` while no hold is active.
    pub fn get_locked_state(&mut self) -> (r: Option<State>)
        requires
            old(self).wf(),
        ensures
            final(self).wf(),
            *final(self) == *old(self),
            r == (if old(self)@.ledger.locks.len() == 0 {
                Option::<State>::None
            } else {
                Some(old(self)@.ledger.locked_state)
            }),
    {
        self.ledger.locked_state()
    }

    /// The steady level of the exit relay: high exactly while holds pin the
    /// gate open. The platform layer mirrors this level onto the hardware.
    pub fn exit_relay_level(&self) -> (r: bool)
        ensures
            r == self@.exit_relay,
    {
        self.exit_relay
    }

    /// Collect the one-shot relay pulse requested by the most recent
    /// transition operation, leaving none pending.
    pub fn take_pulse(&mut self) -> (p: Option<Relay>)
        requires
            old(self).wf(),
        ensures
            final(self).wf(),
            p == old(self)@.pending_pulse,
            final(self)@ == (GateModel { pending_pulse: None, ..old(self)@ }),
    {
        let p = self.pending_pulse;
        self.pending_pulse = None;
        p
    }

    /// Release the exit relay if no hold enforces OPEN (any more).
    fn clear_lock_state_if_required(&mut self)
        ensures
            final(self)@ == (GateModel {
                exit_relay: if old(self)@.ledger.locks.len() == 0 && old(
                    self,
                )@.ledger.locked_state == State::OPEN {
                    false
                } else {
                    old(self)@.exit_relay
                },
                ..old(self)@
            }),
    {
        if self.ledger.len() == 0 && self.ledger.held_state() == State::OPEN {
            self.exit_relay = false;
        }
        proof {
            assert(self@ =~= (GateModel {
                exit_relay: if old(self)@.ledger.locks.len() == 0 && old(
                    self,
                )@.ledger.locked_state == State::OPEN {
                    false
                } else {
                    old(self)@.exit_relay
                },
                ..old(self)@
            }));
        }
    }

    /// Sweep expired holds at the last observed instant, releasing the exit
    /// relay when no hold enforces OPEN any more. Safe to call
    /// repeatedly; runs before every state-changing decision and from the
    /// periodic ticker.
    pub fn sync(&mut self)
        requires
            old(self).wf(),
        ensures
            final(self).wf(),
            final(self)@ == spec_sync(old(self)@),
    {
        self.ledger.sweep(self.now);
        self.clear_lock_state_if_required();
        proof {
            assert(self@ =~= spec_sync(old(self)@));
        }
    }

    /// Issue the relay pulse that moves from the current state to
    /// `desired_state`, if one is needed and none is excluded: a gate
    /// already in `desired_state` succeeds without a pulse, while a gate in
    /// flight, or a request for `MOVING`, is refused.
    fn move_state(&mut self, desired_state: State) -> (r: bool)
        requires
            old(self).wf(),
        ensures
            final(self).wf(),
            final(self)@ == (GateModel {
                pending_pulse: spec_move_pulse(old(self)@, desired_state),
                ..old(self)@
            }),
            r == (spec_current(old(self)@) != State::MOVING && desired_state != State::MOVING),
    {
        let state = self.get_state();
        if state == State::MOVING || desired_state == State::MOVING {
            self.pending_pulse = None;
            return false;
        }
        if state != desired_state {
            if desired_state == State::OPEN {
                self.pending_pulse = Some(Relay::Exit);
            } else {
                self.pending_pulse = Some(Relay::Cycle);
            }
        } else {
            self.pending_pulse = None;
        }
        true
    }

    /// Request a transition to `desired_state`. Sweeps expired holds first;
    /// a gate still held refuses regardless of the requested state, as does
    /// a gate already moving or a request for `MOVING`. Returns whether the
    /// request was accepted; the pulse to perform, if any, is left in
    /// `take_pulse`.
    pub fn change_state(&mut self, desired_state: State) -> (r: bool)
        requires
            old(self).wf(),
        ensures
            final(self).wf(),
            final(self)@ == spec_change_state(old(self)@, desired_state).0,
            r == spec_change_state(old(self)@, desired_state).1,
            r == (spec_sweep(old(self)@.ledger.locks, old(self)@.now).len() == 0 && spec_current(
                old(self)@,
            ) != State::MOVING && desired_state != State::MOVING),
    {
        self.sync();
        if self.ledger.len() > 0 {
            self.pending_pulse = None;
            proof {
                assert(self@ =~= spec_change_state(old(self)@, desired_state).0);
            }
            return false;
        }
        let r = self.move_state(desired_state);
        proof {
            assert(self@ =~= spec_change_state(old(self)@, desired_state).0);
        }
        r
    }

    /// Enforce `desired_state` for `ttl` milliseconds from the last
    /// observed instant. On success the fresh hold's identifier is returned;
    /// an `OPEN` hold raises the exit relay for its whole duration, a
    /// `CLOSED` hold pulses a close motion unless none is needed. Expired
    /// holds are swept first, and the sweep survives a rejection.
    pub fn hold_state(&mut self, desired_state: State, ttl: u64) -> (r: Result<String, HoldError>)
        requires
            old(self).wf(),
        ensures
            final(self).wf(),
            r is Ok <==> spec_hold_error(old(self)@, desired_state) is None,
            (match r {
                Ok(id) => final(self)@ == spec_hold_apply(old(self)@, desired_state, ttl, id@),
                Err(e) => spec_hold_error(old(self)@, desired_state) == Some(e) && final(self)@
                    == spec_hold_fail(old(self)@),
            }),
    {
        self.sync();
        let current = self.get_state();
        let inserted = self.ledger.insert(desired_state, self.now, ttl);
        match inserted {
            Ok(id) => {
                if desired_state == State::OPEN {
                    self.exit_relay = true;
                    self.pending_pulse = None;
                } else {
                    if current != State::CLOSED && current != State::MOVING {
                        self.pending_pulse = Some(Relay::Cycle);
                    } else {
                        self.pending_pulse = None;
                    }
                }
                proof {
                    assert(self@ =~= spec_hold_apply(old(self)@, desired_state, ttl, id@));
                }
                Ok(id)
            },
            Err(e) => {
                self.pending_pulse = None;
                proof {
                    assert(self@ =~= spec_hold_fail(old(self)@));
                }
                Err(e)
            },
        }
    }

    /// Remove the hold carrying `id`; fails with `NotFound`, changing
    /// nothing, when no hold carries it. When the last hold leaves a gate
    /// pinned open, the exit relay is released.
    pub fn delete_lock(&mut self, id: &str) -> (r: Result<(), NotFound>)
        requires
            old(self).wf(),
        ensures
            final(self).wf(),
            final(self)@ == spec_delete(old(self)@, id@).0,
            r is Ok <==> spec_delete(old(self)@, id@).1,
    {
        let removed = self.ledger.remove(id);
        match removed {
            Ok(_) => {
                self.clear_lock_state_if_required();
                proof {
                    assert(self@ =~= spec_delete(old(self)@, id@).0);
                }
                Ok(())
            },
            Err(e) => Err(e),
        }
    }
}

} // verus!
