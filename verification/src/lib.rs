//! Core logic for a motorised vehicle gate.
//!
//! The hardware exposes two binary sense lines (motor running, position
//! indicator) and two relays (cycle and exit). This crate holds the verified
//! core: deriving the logical gate state from the sense lines, deciding which
//! relay to drive for a requested transition, and the ledger of time-bounded
//! holds that pin it in one state. All hardware and network I/O lives
//! outside the crate; callers report signal levels and the clock to the
//! controller and execute the relay commands it emits.

pub mod gate;
pub mod laws;
pub mod ledger;
pub mod service_configuration;
pub mod state;
