//! Properties of the controller that hold across operations, stated over the
//! models that the operations' contracts use.

use vstd::prelude::*;
use crate::state::{State, spec_derive};
use crate::ledger::{
    HoldError,
    LockModel,
    lemma_sweep_empty_iff_all_expired,
    lemma_sweep_push,
    sat_add,
    spec_sweep,
};
use crate::gate::{
    GateModel,
    gate_wf,
    spec_change_state,
    spec_current,
    spec_hold_apply,
    spec_hold_error,
    spec_sync,
};

verus! {

/// The motor-running signal takes absolute priority: whatever the position
/// signal and the wiring polarity, a running motor means a move in flight.
pub proof fn lemma_motor_sense_priority()
    ensures
        forall|position_sense: bool, pull_to_open: bool|
            spec_derive(true, position_sense, pull_to_open) == State::MOVING,
{
}

/// Requesting the state already stood in succeeds trivially and issues no
/// relay pulse, provided no hold is active and no move is in flight.
pub proof fn lemma_change_to_current_state(g: GateModel, desired_state: State)
    requires
        spec_sweep(g.ledger.locks, g.now).len() == 0,
        desired_state != State::MOVING,
        spec_current(g) == desired_state,
    ensures
        spec_change_state(g, desired_state).1 == true,
        spec_change_state(g, desired_state).0.pending_pulse is None,
{
}

/// A gate with an active (unexpired) hold refuses every transition request
/// and issues no pulse, even one for the state it already stands in.
pub proof fn lemma_held_gate_refuses(g: GateModel, desired_state: State)
    requires
        spec_sweep(g.ledger.locks, g.now).len() > 0,
    ensures
        spec_change_state(g, desired_state).1 == false,
        spec_change_state(g, desired_state).0.pending_pulse is None,
{
}

/// Immediately after an accepted, unexpired hold on `OPEN`, a hold on
/// `CLOSED` is rejected as conflicting.
pub proof fn lemma_hold_conflicts(g: GateModel, ttl: u64, id: Seq<char>)
    requires
        g.now < u64::MAX,
        ttl >= 1,
        spec_hold_error(g, State::OPEN) is None,
    ensures
        spec_hold_error(spec_hold_apply(g, State::OPEN, ttl, id), State::CLOSED) == Some(
            HoldError::ConflictingHold,
        ),
{
    let swept = spec_sweep(g.ledger.locks, g.now);
    let l = LockModel { id, expires: sat_add(g.now, ttl) };
    lemma_sweep_push(swept, l, g.now);
}

/// A second hold on the same state coexists with the first: it is accepted,
/// both holds stand in the ledger, and at any later instant the ledger
/// empties exactly once both have expired.
pub proof fn lemma_hold_same_state_coexists(
    g: GateModel,
    ttl: u64,
    ttl2: u64,
    id: Seq<char>,
    id2: Seq<char>,
)
    requires
        gate_wf(g),
        g.ledger.locks.len() == 0,
        g.now < u64::MAX,
        ttl >= 1,
    ensures
        spec_hold_error(g, State::OPEN) is None,
        spec_hold_error(spec_hold_apply(g, State::OPEN, ttl, id), State::OPEN) is None,
        ({
            let g1 = spec_hold_apply(g, State::OPEN, ttl, id);
            let g2 = spec_hold_apply(g1, State::OPEN, ttl2, id2);
            &&& g2.ledger.locks.len() == 2
            &&& (forall|t: u64|
                spec_sweep(g2.ledger.locks, t).len() == 0 <==> (sat_add(g.now, ttl) <= t
                    && sat_add(g.now, ttl2) <= t))
        }),
{
    lemma_sweep_empty_iff_all_expired(g.ledger.locks, g.now);
    let swept = spec_sweep(g.ledger.locks, g.now);
    assert(swept =~= Seq::<LockModel>::empty());
    let l1 = LockModel { id, expires: sat_add(g.now, ttl) };
    let l2 = LockModel { id: id2, expires: sat_add(g.now, ttl2) };
    let g1 = spec_hold_apply(g, State::OPEN, ttl, id);
    lemma_sweep_push(swept, l1, g.now);
    assert(spec_sweep(g1.ledger.locks, g.now) =~= swept.push(l1));
    let g2 = spec_hold_apply(g1, State::OPEN, ttl2, id2);
    assert(g2.ledger.locks =~= swept.push(l1).push(l2));
    assert forall|t: u64|
        spec_sweep(g2.ledger.locks, t).len() == 0 <==> (sat_add(g.now, ttl) <= t && sat_add(
            g.now,
            ttl2,
        ) <= t) by {
        lemma_sweep_empty_iff_all_expired(g2.ledger.locks, t);
        assert(g2.ledger.locks[0] == l1);
        assert(g2.ledger.locks[1] == l2);
    }
}

/// A hold on `MOVING` is always rejected as invalid, whatever the ledger
/// holds.
pub proof fn lemma_hold_moving_always_invalid(g: GateModel)
    ensures
        spec_hold_error(g, State::MOVING) == Some(HoldError::InvalidLockState),
{
}

/// A sole hold inserted with a zero time-to-live is removed by a sync at any
/// later observed instant, and a hold that enforced OPEN leaves the
/// exit relay released.
pub proof fn lemma_expired_hold_swept(g: GateModel, id: Seq<char>, t: u64)
    requires
        gate_wf(g),
        g.ledger.locks.len() == 0,
        t >= g.now,
    ensures
        ({
            let g1 = spec_hold_apply(g, State::OPEN, 0, id);
            let observed = GateModel { now: t, ..g1 };
            &&& spec_sync(observed).ledger.locks.len() == 0
            &&& !spec_sync(observed).exit_relay
        }),
{
    lemma_sweep_empty_iff_all_expired(g.ledger.locks, g.now);
    let swept = spec_sweep(g.ledger.locks, g.now);
    assert(swept =~= Seq::<LockModel>::empty());
    let l = LockModel { id, expires: sat_add(g.now, 0) };
    let g1 = spec_hold_apply(g, State::OPEN, 0, id);
    assert(g1.ledger.locks =~= swept.push(l));
    lemma_sweep_empty_iff_all_expired(g1.ledger.locks, t);
    assert(g1.ledger.locks[0] == l);
}

} // verus!
