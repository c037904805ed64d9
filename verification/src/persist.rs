//! The persistence contract consumed by the core.
//!
//! After every registry mutation the core hands the full collection to a
//! [`Persistence`] sink.  A failure is non-fatal: the in-memory registry
//! stays authoritative, and checking goes on.  Writing the same state
//! twice must be harmless, so the sink may be called repeatedly.

use vstd::prelude::*;

use crate::domain::MonitoredDomain;

verus! {

/// Why a persist call failed, as the sink reported it.
#[derive(Debug)]
pub struct PersistError {
    /// The sink's own description of the failure.
    pub message: String,
}

/// A durable store for the registry's current state.  The core injects a
/// concrete implementation at construction and promises nothing about the
/// outcome of a call: its own contracts hold whether the sink succeeds or
/// fails.
pub trait Persistence {
    /// Durably store the given collection, replacing what was stored
    /// before.
    fn persist(&mut self, domains: &Vec<MonitoredDomain>) -> Result<(), PersistError>;
}

} // verus!
