//! Error values returned by the session core.
//!
//! Every failure is an ordinary value handed back to the caller; no
//! operation of this crate panics on an input it accepts.

use vstd::prelude::*;

verus! {

/// Port enumeration failed: the query to the host OS itself errored
/// (permissions, driver failure). Callers should treat this as
/// non-fatal and show an empty port list.
#[derive(Clone, Copy, Debug, PartialEq, Eq, Structural)]
pub enum EnumerationError {
    /// The OS-level port listing call reported an error.
    Os,
}

/// Why an attempt to open a port failed, as classified by the layer
/// that performed the open.
#[derive(Clone, Copy, Debug, PartialEq, Eq, Structural)]
pub enum OpenFailure {
    /// No port of the requested name exists.
    NotFound,
    /// The port exists but is already held by another process.
    Busy,
    /// The caller may not open the port.
    PermissionDenied,
    /// The device rejected a parameter, such as the baud rate.
    InvalidParameter,
    /// Any other open-time failure.
    Other,
}

/// Why `connect` was refused or failed.
#[derive(Clone, Copy, Debug, PartialEq, Eq, Structural)]
pub enum ConnectError {
    /// The session is already connected; disconnect explicitly first.
    AlreadyConnected,
    /// The configuration named a baud rate of zero, which no device accepts.
    InvalidBaud,
    /// Opening the device failed, for the given reason.
    Open { reason: OpenFailure },
}

/// Why a write during an active session failed, as classified by the
/// layer that performed the write.
#[derive(Clone, Copy, Debug, PartialEq, Eq, Structural)]
pub enum IoFailure {
    /// The write did not complete within the device timeout.
    TimedOut,
    /// The device went away mid-session.
    Disconnected,
    /// Any other write-time failure.
    Other,
}

/// Why `send` was refused or failed.
#[derive(Clone, Copy, Debug, PartialEq, Eq, Structural)]
pub enum SendError {
    /// `send` was called while the session was disconnected; no port
    /// handle was touched.
    NotConnected,
    /// The write to the port failed, for the given reason. The session
    /// is not torn down: the caller decides whether to disconnect.
    Io { reason: IoFailure },
}

} // verus!
