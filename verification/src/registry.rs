//! Enumeration of the serial ports attached to the host.
//!
//! A pure query: nothing is retained between calls, and it is safe to
//! repeat on every user-triggered refresh. Which ports exist depends on
//! the machine at the moment of the call, so nothing is promised about
//! the names that come back — only that a failure of the OS query is
//! reported as a value, never as a fault.

use vstd::prelude::*;

verus! {

use crate::errors::EnumerationError;

/// Relies on serialport::available_ports: asks the host OS which serial
/// ports are attached and keeps each reported port's name. The set of
/// ports depends on the machine and the moment, so nothing is stated
/// about the outcome.
#[verifier::external_body]
fn available_port_names() -> (r: Result<Vec<String>, ()>) {
    match serialport::available_ports() {
        Ok(ports) => Ok(ports.into_iter().map(|p| p.port_name).collect()),
        Err(_) => Err(()),
    }
}

/// The port listing service. It holds no state: each `list` call asks
/// the OS afresh.
pub struct PortRegistry {}

impl PortRegistry {
    /// The names of the serial ports currently attached, in the order
    /// the OS reports them. A host with no ports yields `Ok` of an
    /// empty list, not an error; `Err` means the OS query itself
    /// failed, which callers should treat as non-fatal and show as an
    /// empty list.
    pub fn list() -> (r: Result<Vec<String>, EnumerationError>)
        ensures
            r matches Err(e) ==> e == EnumerationError::Os,
    {
        match available_port_names() {
            Ok(names) => Ok(names),
            Err(()) => Err(EnumerationError::Os),
        }
    }
}

} // verus!
