//! The logical gate state and how it is derived from the sense lines.
//!
//! No direct open/closed sensor exists: the state is inferred from the
//! motor-running signal and the position ("master orange") signal, combined
//! with the wiring polarity (`pull_to_open`).

use vstd::prelude::*;

verus! {

/// Logical state of a gate.
#[derive(Copy, Clone, Debug, PartialEq, Eq, Structural)]
pub enum State {
    OPEN,
    MOVING,
    CLOSED,
}

impl Default for State {
    /// A gate with no information is presumed closed.
    fn default() -> (s: Self)
        ensures
            s == State::CLOSED,
    {
        State::CLOSED
    }
}

/// What `derive_state` returns: the motor-running signal takes absolute
/// priority; otherwise the position signal is read through the wiring
/// polarity.
pub open spec fn spec_derive(motor_sense: bool, position_sense: bool, pull_to_open: bool) -> State {
    if motor_sense {
        State::MOVING
    } else if position_sense {
        if pull_to_open {
            State::OPEN
        } else {
            State::CLOSED
        }
    } else {
        if pull_to_open {
            State::CLOSED
        } else {
            State::OPEN
        }
    }
}

/// Derive the logical gate state from the two sense-signal levels and the
/// configured wiring polarity. Pure and total over its boolean inputs.
pub fn derive_state(motor_sense: bool, position_sense: bool, pull_to_open: bool) -> (s: State)
    ensures
        s == spec_derive(motor_sense, position_sense, pull_to_open),
{
    if motor_sense {
        State::MOVING
    } else if position_sense {
        if pull_to_open {
            State::OPEN
        } else {
            State::CLOSED
        }
    } else {
        if pull_to_open {
            State::CLOSED
        } else {
            State::OPEN
        }
    }
}

/// ASCII upper-casing of a single character, as `str::make_ascii_uppercase`
/// performs it: letters `a` through `z` map to `A` through `Z`, everything
/// else is unchanged.
pub open spec fn spec_upper(c: char) -> char {
    if 'a' <= c && c <= 'z' {
        ((c as u32) - 32) as char
    } else {
        c
    }
}

/// The state named by a string, compared case-insensitively: exactly the
/// spellings of `OPEN`, `MOVING` and `CLOSED` are accepted.
pub open spec fn spec_state_from_str(s: Seq<char>) -> Result<State, ()> {
    let upper = s.map_values(|c: char| spec_upper(c));
    if upper == "OPEN"@ {
        Ok(State::OPEN)
    } else if upper == "MOVING"@ {
        Ok(State::MOVING)
    } else if upper == "CLOSED"@ {
        Ok(State::CLOSED)
    } else {
        Err(())
    }
}

/// True when `c` upper-cases to `w`.
fn char_upper_is(c: char, w: char) -> (r: bool)
    ensures
        r == (spec_upper(c) == w),
{
    if 'a' <= c && c <= 'z' {
        (c as u32) == (w as u32) + 32
    } else {
        c == w
    }
}

/// True when `s`, upper-cased, spells `word`.
fn matches_upper(s: &str, word: &str) -> (r: bool)
    ensures
        r == (s@.map_values(|c: char| spec_upper(c)) == word@),
{
    let n = s.unicode_len();
    if n != word.unicode_len() {
        proof {
            assert(s@.map_values(|c: char| spec_upper(c)).len() == s@.len());
        }
        return false;
    }
    let mut i: usize = 0;
    while i < n
        invariant
            i <= n,
            n == s@.len(),
            n == word@.len(),
            forall|j: int| 0 <= j < i ==> spec_upper(s@[j]) == word@[j],
        decreases n - i,
    {
        let c = s.get_char(i);
        let w = word.get_char(i);
        if !char_upper_is(c, w) {
            proof {
                assert(s@.map_values(|c: char| spec_upper(c))[i as int] != word@[i as int]);
            }
            return false;
        }
        i += 1;
    }
    proof {
        assert(s@.map_values(|c: char| spec_upper(c)) =~= word@);
    }
    true
}

impl State {
    /// Parse a state name, ignoring ASCII case.
    pub fn from_str(s: &str) -> (r: Result<State, ()>)
        ensures
            r == spec_state_from_str(s@),
    {
        if matches_upper(s, "OPEN") {
            Ok(State::OPEN)
        } else if matches_upper(s, "MOVING") {
            Ok(State::MOVING)
        } else if matches_upper(s, "CLOSED") {
            Ok(State::CLOSED)
        } else {
            Err(())
        }
    }
}

} // verus!
