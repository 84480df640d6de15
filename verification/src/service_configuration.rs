//! Process-level configuration: the listening port and the wiring.
//!
//! The surrounding process loads this from its configuration file before the
//! controller is constructed; a missing or unreadable field is fatal there,
//! never the controller's concern.

use vstd::prelude::*;
use crate::gate::GateConfiguration;

verus! {

/// Everything the process needs to come up: where to listen and how its
/// gate is wired.
pub struct ServiceConfiguration {
    pub server_port: u16,
    pub gate_configuration: GateConfiguration,
}

} // verus!
