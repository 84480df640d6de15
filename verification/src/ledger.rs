//! The lock ledger: a collection of time-bounded holds that pin a gate in
//! one state.
//!
//! Every hold carries an opaque identifier and an absolute expiry instant
//! (milliseconds). All holds present at any moment agree on one shared
//! "locked state" (`OPEN` or `CLOSED`); a hold for a different state is
//! rejected while the ledger is non-empty. Holds leave the ledger either by
//! explicit removal or by the expiry sweep.

use vstd::prelude::*;
use vstd::seq_lib::group_seq_properties;
use crate::state::State;

verus! {

/// Mathematical content of one hold: its identifier and expiry instant.
#[verifier::ext_equal]
pub ghost struct LockModel {
    pub id: Seq<char>,
    pub expires: u64,
}

/// One time-bounded hold on a gate's state.
#[derive(Debug)]
pub struct LockStateLock {
    id: String,
    expires: u64,
}

impl View for LockStateLock {
    type V = LockModel;

    closed spec fn view(&self) -> LockModel {
        LockModel { id: self.id@, expires: self.expires }
    }
}

impl Clone for LockStateLock {
    fn clone(&self) -> (r: Self)
        ensures
            r@ == self@,
    {
        LockStateLock { id: self.id.clone(), expires: self.expires }
    }
}

impl LockStateLock {
    /// The hold's identifier.
    pub fn id(&self) -> (r: &str)
        ensures
            r@ == self@.id,
    {
        self.id.as_str()
    }

    /// The absolute instant (milliseconds) at which the hold expires.
    pub fn expires(&self) -> (r: u64)
        ensures
            r == self@.expires,
    {
        self.expires
    }
}

/// Why a hold request was rejected.
#[derive(Copy, Clone, Debug, PartialEq, Eq, Structural)]
pub enum HoldError {
    /// The ledger is non-empty and already pins a different state.
    ConflictingHold,
    /// `MOVING` is not a state a gate can be held in.
    InvalidLockState,
}

/// Removal was requested for an identifier that no hold in the ledger carries.
#[derive(Copy, Clone, Debug, PartialEq, Eq, Structural)]
pub struct NotFound;

/// Relies on `uuid::Uuid::new_v4` and its hyphenated formatting: a fresh
/// random version-4 identifier rendered as 36 characters.
#[verifier::external_body]
fn fresh_lock_id() -> (id: String)
    ensures
        id@.len() == 36,
{
    uuid::Uuid::new_v4().hyphenated().to_string()
}

/// `a + b`, saturating at the largest representable instant.
pub open spec fn sat_add(a: u64, b: u64) -> u64 {
    if a + b > u64::MAX {
        u64::MAX
    } else {
        (a + b) as u64
    }
}

/// The holds that survive a sweep at instant `now`: exactly those that have
/// not yet expired.
pub open spec fn spec_sweep(locks: Seq<LockModel>, now: u64) -> Seq<LockModel> {
    locks.filter(|l: LockModel| l.expires > now)
}

/// Index of the first hold carrying `id`, or `-1` if none does.
pub open spec fn spec_find(locks: Seq<LockModel>, id: Seq<char>) -> int
    decreases locks.len(),
{
    if locks.len() == 0 {
        -1
    } else if locks[0].id == id {
        0
    } else {
        let rest = spec_find(locks.drop_first(), id);
        if rest < 0 {
            -1
        } else {
            rest + 1
        }
    }
}

/// `spec_find` returns `-1` exactly when no hold carries `id`; otherwise it
/// returns the first index that does.
pub proof fn lemma_find(locks: Seq<LockModel>, id: Seq<char>)
    ensures
        spec_find(locks, id) == -1 <==> (forall|j: int|
            0 <= j < locks.len() ==> locks[j].id != id),
        spec_find(locks, id) != -1 ==> {
            &&& 0 <= spec_find(locks, id) < locks.len()
            &&& locks[spec_find(locks, id)].id == id
            &&& forall|j: int| 0 <= j < spec_find(locks, id) ==> locks[j].id != id
        },
    decreases locks.len(),
{
    if locks.len() != 0 && locks[0].id != id {
        lemma_find(locks.drop_first(), id);
        let rest = spec_find(locks.drop_first(), id);
        if rest == -1 {
            assert forall|j: int| 0 <= j < locks.len() implies locks[j].id != id by {
                if j >= 1 {
                    assert(locks.drop_first()[j - 1].id != id);
                }
            }
        } else {
            assert(locks[rest + 1] == locks.drop_first()[rest]);
            assert forall|j: int| 0 <= j < rest + 1 implies locks[j].id != id by {
                if j >= 1 {
                    assert(locks.drop_first()[j - 1].id != id);
                }
            }
        }
    }
}

/// A sweep removes every hold, and only then, when every hold has expired.
pub proof fn lemma_sweep_empty_iff_all_expired(locks: Seq<LockModel>, now: u64)
    ensures
        spec_sweep(locks, now).len() == 0 <==> (forall|j: int|
            0 <= j < locks.len() ==> locks[j].expires <= now),
    decreases locks.len(),
{
    reveal(Seq::filter);
    if locks.len() != 0 {
        lemma_sweep_empty_iff_all_expired(locks.drop_last(), now);
        assert(forall|j: int|
            0 <= j < locks.drop_last().len() ==> locks.drop_last()[j] == locks[j]);
        if forall|j: int| 0 <= j < locks.len() - 1 ==> locks[j].expires <= now {
            if locks.last().expires <= now {
                assert(forall|j: int| 0 <= j < locks.len() ==> locks[j].expires <= now);
            }
        }
    }
}

/// One sweep step: appending a hold keeps it exactly when it is unexpired.
pub proof fn lemma_sweep_push(locks: Seq<LockModel>, l: LockModel, now: u64)
    ensures
        spec_sweep(locks.push(l), now) == (if l.expires > now {
            spec_sweep(locks, now).push(l)
        } else {
            spec_sweep(locks, now)
        }),
{
    reveal(Seq::filter);
    assert(locks.push(l).drop_last() =~= locks);
}

/// Mathematical content of the ledger: the holds, in insertion order, and the
/// state they pin. The pinned state is meaningful only while holds exist.
#[verifier::ext_equal]
pub ghost struct LedgerModel {
    pub locks: Seq<LockModel>,
    pub locked_state: State,
}

/// The ordered collection of holds, with the state they pin.
pub struct LockLedger {
    locks: Vec<LockStateLock>,
    locked_state: State,
}

impl View for LockLedger {
    type V = LedgerModel;

    closed spec fn view(&self) -> LedgerModel {
        LedgerModel {
            locks: self.locks@.map_values(|l: LockStateLock| l@),
            locked_state: self.locked_state,
        }
    }
}

impl LockLedger {
    /// The ledger never pins `MOVING`.
    pub open spec fn wf(self) -> bool {
        self@.locked_state != State::MOVING
    }

    /// An empty ledger. The pinned state starts at `CLOSED` and is
    /// meaningless until a hold is inserted.
    pub fn new() -> (l: LockLedger)
        ensures
            l@ == (LedgerModel { locks: Seq::<LockModel>::empty(), locked_state: State::CLOSED }),
            l.wf(),
    {
        let l = LockLedger { locks: Vec::new(), locked_state: State::CLOSED };
        proof {
            assert(l@.locks =~= Seq::<LockModel>::empty());
        }
        l
    }

    /// Number of holds currently in the ledger.
    pub fn len(&self) -> (n: usize)
        ensures
            n == self@.locks.len(),
    {
        self.locks.len()
    }

    /// The state the ledger pins: `None` while the ledger is empty.
    pub fn locked_state(&self) -> (r: Option<State>)
        ensures
            r == (if self@.locks.len() == 0 {
                Option::<State>::None
            } else {
                Some(self@.locked_state)
            }),
    {
        if self.locks.len() == 0 {
            None
        } else {
            Some(self.locked_state)
        }
    }

    /// The raw pinned-state record, stale when the ledger is empty.
    pub(crate) fn held_state(&self) -> (r: State)
        ensures
            r == self@.locked_state,
    {
        self.locked_state
    }

    /// A snapshot of every hold, in insertion order.
    pub fn holds(&self) -> (v: Vec<LockStateLock>)
        ensures
            v@.map_values(|l: LockStateLock| l@) == self@.locks,
    {
        let mut v: Vec<LockStateLock> = Vec::new();
        let mut i: usize = 0;
        while i < self.locks.len()
            invariant
                v@.len() == i <= self.locks@.len(),
                forall|j: int| 0 <= j < i ==> (#[trigger] v@[j])@ == self@.locks[j],
            decreases self.locks@.len() - i,
        {
            v.push(self.locks[i].clone());
            i += 1;
        }
        proof {
            assert(v@.map_values(|l: LockStateLock| l@) =~= self@.locks);
        }
        v
    }

    /// Validate and insert a hold pinning `desired_state` until `now + ttl`
    /// (saturating), under a freshly generated identifier, which is returned.
    /// Fails with `InvalidLockState` when `MOVING` is requested, and with
    /// `ConflictingHold` when the non-empty ledger pins a different state.
    pub fn insert(&mut self, desired_state: State, now: u64, ttl: u64) -> (r: Result<
        String,
        HoldError,
    >)
        requires
            old(self).wf(),
        ensures
            final(self).wf(),
            r is Ok <==> (desired_state != State::MOVING && (old(self)@.locks.len() == 0
                || desired_state == old(self)@.locked_state)),
            (match r {
                Ok(id) => {
                    &&& final(self)@.locks == old(self)@.locks.push(
                        LockModel { id: id@, expires: sat_add(now, ttl) },
                    )
                    &&& final(self)@.locked_state == desired_state
                    &&& id@.len() == 36
                },
                Err(e) => {
                    &&& final(self)@ == old(self)@
                    &&& (e == HoldError::InvalidLockState <==> desired_state == State::MOVING)
                    &&& (e == HoldError::ConflictingHold ==> old(self)@.locks.len() > 0
                        && desired_state != old(self)@.locked_state)
                },
            }),
    {
        if desired_state == State::MOVING {
            return Err(HoldError::InvalidLockState);
        }
        if self.locks.len() > 0 && desired_state != self.locked_state {
            return Err(HoldError::ConflictingHold);
        }
        let expires = if ttl > u64::MAX - now {
            u64::MAX
        } else {
            now + ttl
        };
        let id = fresh_lock_id();
        let lock = LockStateLock { id: id.clone(), expires };
        self.locks.push(lock);
        self.locked_state = desired_state;
        proof {
            assert(self@.locks =~= old(self)@.locks.push(
                LockModel { id: id@, expires: sat_add(now, ttl) },
            ));
        }
        Ok(id)
    }

    /// Remove the first hold carrying `id`; fails with `NotFound` (and leaves
    /// the ledger unchanged) when no hold carries it.
    pub fn remove(&mut self, id: &str) -> (r: Result<(), NotFound>)
        requires
            old(self).wf(),
        ensures
            final(self).wf(),
            final(self)@.locked_state == old(self)@.locked_state,
            r is Ok <==> spec_find(old(self)@.locks, id@) != -1,
            (match r {
                Ok(_) => final(self)@.locks == old(self)@.locks.remove(
                    spec_find(old(self)@.locks, id@),
                ),
                Err(_) => final(self)@ == old(self)@,
            }),
    {
        proof {
            lemma_find(old(self)@.locks, id@);
        }
        let id_owned: String = id.to_owned();
        let mut i: usize = 0;
        while i < self.locks.len()
            invariant
                old(self).wf(),
                i <= self.locks@.len(),
                *self == *old(self),
                id_owned@ == id@,
                forall|j: int| 0 <= j < i ==> (#[trigger] old(self)@.locks[j]).id != id@,
            decreases self.locks@.len() - i,
        {
            if self.locks[i].id == id_owned {
                proof {
                    lemma_find(old(self)@.locks, id@);
                    assert(old(self)@.locks[i as int].id == id@);
                    let f = spec_find(old(self)@.locks, id@);
                    if f == -1 {
                        assert(old(self)@.locks[i as int].id != id@);
                    } else if f < i {
                        assert(old(self)@.locks[f].id == id@);
                    } else if f > i {
                        assert(old(self)@.locks[i as int].id != id@);
                    }
                    assert(f == i);
                }
                self.locks.remove(i);
                proof {
                    assert(self@.locks =~= old(self)@.locks.remove(i as int));
                }
                return Ok(());
            }
            i += 1;
        }
        proof {
            lemma_find(old(self)@.locks, id@);
        }
        Err(NotFound)
    }

    /// Remove every hold whose expiry instant has passed. Returns whether the
    /// sweep transitioned the ledger from non-empty to empty — the edge on
    /// which a continuously asserted relay must be released.
    pub fn sweep(&mut self, now: u64) -> (emptied: bool)
        requires
            old(self).wf(),
        ensures
            final(self).wf(),
            final(self)@.locks == spec_sweep(old(self)@.locks, now),
            final(self)@.locked_state == old(self)@.locked_state,
            emptied == (old(self)@.locks.len() > 0 && final(self)@.locks.len() == 0),
    {
        broadcast use group_seq_properties;

        let was_nonempty = self.locks.len() > 0;
        let mut kept: Vec<LockStateLock> = Vec::new();
        proof {
            assert(kept@.map_values(|l: LockStateLock| l@) =~= spec_sweep(
                old(self)@.locks.take(0),
                now,
            )) by {
                reveal(Seq::filter);
                assert(old(self)@.locks.take(0) =~= Seq::<LockModel>::empty());
            }
        }
        let mut i: usize = 0;
        while i < self.locks.len()
            invariant
                i <= self.locks@.len(),
                *self == *old(self),
                kept@.map_values(|l: LockStateLock| l@) == spec_sweep(
                    old(self)@.locks.take(i as int),
                    now,
                ),
            decreases self.locks@.len() - i,
        {
            let ghost prev = old(self)@.locks.take(i as int);
            let ghost kept_model = kept@.map_values(|l: LockStateLock| l@);
            let ghost elem = old(self)@.locks[i as int];
            proof {
                lemma_sweep_push(prev, elem, now);
                assert(prev.push(elem) =~= old(self)@.locks.take(i as int + 1));
            }
            if self.locks[i].expires > now {
                kept.push(self.locks[i].clone());
                proof {
                    assert(kept@.map_values(|l: LockStateLock| l@) =~= kept_model.push(elem));
                }
            }
            i += 1;
        }
        proof {
            assert(old(self)@.locks.take(self.locks@.len() as int) =~= old(self)@.locks);
        }
        self.locks = kept;
        was_nonempty && self.locks.len() == 0
    }
}

} // verus!
