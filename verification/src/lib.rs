//! A verified core for an interactive serial-port terminal session.
//!
//! The crate owns the logic of such a session: a bounded rolling text
//! buffer for received output (`buffer`), the connect/disconnect/send
//! state machine of one port session (`session`), the error values the
//! operations return (`errors`), and the enumeration of attached ports
//! (`registry`). Opening the device, the background read loop and the
//! channel between them are the presentation layer's work: it asks the
//! session what to do, performs the I/O, and reports the outcome back.

pub mod buffer;
pub mod errors;
pub mod registry;
pub mod session;
pub mod worker;

use vstd::prelude::*;

verus! {

/// The display buffer holds at most this many bytes unless a caller
/// chooses another capacity.
pub const DEFAULT_BUFFER_CAPACITY: usize = 1000;

} // verus!
