//! The connect/disconnect/send state machine of one port session.
//!
//! A `PortSession` owns the logical lifecycle of at most one open
//! connection and the display buffer its received bytes land in. The
//! session itself performs no I/O: the presentation layer asks it
//! whether an operation is allowed (`connect_request`, `send_request`),
//! performs the device call, and reports the outcome back
//! (`connect_succeeded`, `disconnect`). Bytes the background reader
//! produced are handed over, in arrival order, through `drain`.

use vstd::prelude::*;

verus! {

use crate::buffer::SessionBuffer;
use crate::buffer::spec_append_all;
use crate::errors::ConnectError;
use crate::errors::SendError;

/// The read timeout handed to the device unless a caller chooses
/// another, in milliseconds. It bounds every blocking read, so a
/// background reader notices a closed handle within one interval.
pub const DEFAULT_READ_TIMEOUT_MS: u64 = 10;

/// The baud rates a terminal offers its user by default, lowest first.
/// The set is a recommendation: `connect_request` accepts any positive
/// rate and leaves the rest to the OS.
pub fn recommended_baud_rates() -> (r: Vec<u32>)
    ensures
        r@ == seq![9600u32, 19200u32, 38400u32, 57600u32, 115200u32],
{
    let mut rates: Vec<u32> = Vec::new();
    rates.push(9600);
    rates.push(19200);
    rates.push(38400);
    rates.push(57600);
    rates.push(115200);
    proof {
        assert(rates@ =~= seq![9600u32, 19200u32, 38400u32, 57600u32, 115200u32]);
    }
    rates
}

/// How a session is to be opened. Immutable once the session is
/// connected; changing it takes a disconnect and a new connect.
pub struct SessionConfig {
    /// The OS name of the port to open, such as a device path.
    pub port_name: String,
    /// The requested baud rate; any positive rate the OS accepts.
    pub baud_rate: u32,
    /// The read timeout for the background reader, in milliseconds.
    pub read_timeout_ms: u64,
}

/// The mathematical value of a `SessionConfig`.
pub ghost struct ConfigView {
    pub port_name: Seq<char>,
    pub baud_rate: u32,
    pub read_timeout_ms: u64,
}

impl View for SessionConfig {
    type V = ConfigView;

    open spec fn view(&self) -> ConfigView {
        ConfigView {
            port_name: self.port_name@,
            baud_rate: self.baud_rate,
            read_timeout_ms: self.read_timeout_ms,
        }
    }
}

impl SessionConfig {
    /// A configuration for the named port at the given rate, with the
    /// default read timeout.
    pub fn new(port_name: String, baud_rate: u32) -> (r: Self)
        ensures
            r@.port_name == port_name@,
            r@.baud_rate == baud_rate,
            r@.read_timeout_ms == DEFAULT_READ_TIMEOUT_MS,
    {
        SessionConfig { port_name, baud_rate, read_timeout_ms: DEFAULT_READ_TIMEOUT_MS }
    }
}

/// Whether a session currently owns an open connection.
#[derive(Clone, Copy, Debug, PartialEq, Eq, Structural)]
pub enum SessionState {
    Disconnected,
    Connected,
}

/// The mathematical value of a `PortSession`: its state, the
/// configuration it was opened with, and its display buffer.
pub ghost struct SessionView {
    pub connected: bool,
    pub config: Option<ConfigView>,
    pub buffer: Seq<u8>,
    pub cap: nat,
}

impl SessionView {
    /// A session is well formed when it holds a configuration exactly
    /// while connected, only accepts positive baud rates, and keeps its
    /// buffer within its capacity.
    pub open spec fn wf(self) -> bool {
        &&& self.connected <==> self.config is Some
        &&& self.connected ==> self.config.unwrap().baud_rate > 0
        &&& self.buffer.len() <= self.cap
    }
}

/// Whether a connect attempt may proceed on a session in state `v` with
/// configuration `c`: refused while already connected, refused for a
/// zero baud rate, and otherwise allowed.
pub open spec fn spec_connect_request(v: SessionView, c: ConfigView) -> Result<(), ConnectError> {
    if v.connected {
        Err(ConnectError::AlreadyConnected)
    } else if c.baud_rate == 0 {
        Err(ConnectError::InvalidBaud)
    } else {
        Ok(())
    }
}

/// The session after a successful open with configuration `c`.
pub open spec fn spec_connected(v: SessionView, c: ConfigView) -> SessionView {
    SessionView { connected: true, config: Some(c), ..v }
}

/// The session after a disconnect: no connection, no configuration, the
/// buffer untouched.
pub open spec fn spec_disconnected(v: SessionView) -> SessionView {
    SessionView { connected: false, config: None, ..v }
}

/// Whether a send may proceed on a session in state `v`: refused, and
/// no port handle touched, unless connected.
pub open spec fn spec_send_request(v: SessionView) -> Result<(), SendError> {
    if v.connected {
        Ok(())
    } else {
        Err(SendError::NotConnected)
    }
}

/// The session after draining `chunks`, in order, into its buffer.
pub open spec fn spec_drained(v: SessionView, chunks: Seq<Seq<u8>>) -> SessionView {
    SessionView { buffer: spec_append_all(v.buffer, v.cap, chunks), ..v }
}

/// One logical session over a serial port: a state machine from
/// `Disconnected` to `Connected` and back, plus the rolling buffer of
/// received output.
pub struct PortSession {
    state: SessionState,
    config: Option<SessionConfig>,
    buffer: SessionBuffer,
}

impl View for PortSession {
    type V = SessionView;

    closed spec fn view(&self) -> SessionView {
        SessionView {
            connected: self.state is Connected,
            config: match self.config {
                Some(c) => Some(c@),
                None => None,
            },
            buffer: self.buffer@,
            cap: self.buffer.cap(),
        }
    }
}

impl PortSession {
    /// The session's internal invariant.
    pub open spec fn wf(&self) -> bool {
        self@.wf()
    }

    /// A fresh, disconnected session whose buffer will never hold more
    /// than `max_capacity` bytes.
    pub fn new(max_capacity: usize) -> (r: Self)
        ensures
            !r@.connected,
            r@.config is None,
            r@.buffer == Seq::<u8>::empty(),
            r@.cap == max_capacity as nat,
            r.wf(),
    {
        PortSession {
            state: SessionState::Disconnected,
            config: None,
            buffer: SessionBuffer::new(max_capacity),
        }
    }

    /// Whether the session currently owns a connection.
    pub fn is_connected(&self) -> (r: bool)
        ensures
            r == self@.connected,
    {
        matches!(self.state, SessionState::Connected)
    }

    /// The configuration of the current connection, while there is one.
    pub fn current_config(&self) -> (r: Option<&SessionConfig>)
        ensures
            match r {
                Some(c) => self@.config == Some(c@),
                None => self@.config is None,
            },
    {
        self.config.as_ref()
    }

    /// The received output gathered so far, oldest byte first.
    pub fn output(&self) -> (r: &Vec<u8>)
        ensures
            r@ == self@.buffer,
    {
        self.buffer.as_bytes()
    }

    /// The buffer's maximum length.
    pub fn buffer_capacity(&self) -> (r: usize)
        ensures
            r as nat == self@.cap,
    {
        self.buffer.max_capacity()
    }

    /// Asks whether a connect with `config` may proceed. Refuses with
    /// `AlreadyConnected` while a connection is live — an explicit
    /// disconnect must come first — and with `InvalidBaud` for a zero
    /// baud rate; in either case nothing is opened and the session is
    /// untouched. On `Ok` the caller may open the device and must then
    /// report `connect_succeeded`, or nothing at all if the open failed,
    /// which leaves the session exactly as it was.
    pub fn connect_request(&self, config: &SessionConfig) -> (r: Result<(), ConnectError>)
        ensures
            r == spec_connect_request(self@, config@),
    {
        if self.is_connected() {
            Err(ConnectError::AlreadyConnected)
        } else if config.baud_rate == 0 {
            Err(ConnectError::InvalidBaud)
        } else {
            Ok(())
        }
    }

    /// Records that the open granted by `connect_request` succeeded:
    /// the session becomes `Connected` under `config`, and the buffer
    /// is untouched.
    pub fn connect_succeeded(&mut self, config: SessionConfig)
        requires
            old(self).wf(),
            spec_connect_request(old(self)@, config@) == Ok::<(), ConnectError>(()),
        ensures
            final(self)@ == spec_connected(old(self)@, config@),
            final(self).wf(),
    {
        self.state = SessionState::Connected;
        self.config = Some(config);
    }

    /// Ends the connection, if any: the session becomes `Disconnected`
    /// and the buffer is untouched. Idempotent — disconnecting an
    /// already disconnected session is a no-op, never an error. The
    /// caller drops the port handle, which stops the background reader
    /// within one read timeout.
    pub fn disconnect(&mut self)
        requires
            old(self).wf(),
        ensures
            final(self)@ == spec_disconnected(old(self)@),
            final(self).wf(),
    {
        self.state = SessionState::Disconnected;
        self.config = None;
    }

    /// Asks whether a send may proceed: refused with `NotConnected`
    /// while disconnected, in which case no port handle is touched and
    /// no byte leaves the machine. On `Ok` the caller writes the bytes
    /// to the device; a failed write maps to `SendError::Io` and leaves
    /// the session's state machine exactly where it was.
    pub fn send_request(&self) -> (r: Result<(), SendError>)
        ensures
            r == spec_send_request(self@),
    {
        if self.is_connected() {
            Ok(())
        } else {
            Err(SendError::NotConnected)
        }
    }

    /// Appends every received chunk, in arrival order, to the display
    /// buffer, trimming from the front after each append. Chunks are the
    /// batches the background reader pushed through the channel; passing
    /// none is the expected idle case and changes nothing.
    pub fn drain(&mut self, chunks: &Vec<Vec<u8>>)
        requires
            old(self).wf(),
        ensures
            final(self)@ == spec_drained(old(self)@, chunks.deep_view()),
            final(self).wf(),
    {
        self.buffer.append_all(chunks);
    }
}

/// A connect followed immediately by a disconnect, with nothing drained
/// in between, returns the session to exactly the state it started in:
/// disconnected, with the buffer untouched.
pub proof fn lemma_connect_then_disconnect(v: SessionView, c: ConfigView)
    requires
        v.wf(),
        spec_connect_request(v, c) == Ok::<(), ConnectError>(()),
    ensures
        spec_disconnected(spec_connected(v, c)) == v,
        !spec_disconnected(spec_connected(v, c)).connected,
        spec_disconnected(spec_connected(v, c)).buffer == v.buffer,
{
}

/// A second connect without an intervening disconnect is always
/// rejected with `AlreadyConnected`, whatever configuration it asks
/// for: a session never carries two live connections or workers.
pub proof fn lemma_second_connect_rejected(v: SessionView, c1: ConfigView, c2: ConfigView)
    requires
        spec_connect_request(v, c1) == Ok::<(), ConnectError>(()),
    ensures
        spec_connect_request(spec_connected(v, c1), c2)
            == Err::<(), ConnectError>(ConnectError::AlreadyConnected),
{
}

/// A send on a disconnected session always fails with `NotConnected`;
/// since no write command is granted, no port handle is ever touched.
pub proof fn lemma_send_while_disconnected_rejected(v: SessionView)
    requires
        !v.connected,
    ensures
        spec_send_request(v) == Err::<(), SendError>(SendError::NotConnected),
{
}

/// Chunks drained in arrival order land in the buffer in that order:
/// while everything fits within the capacity, the buffer afterwards is
/// its old contents followed by the chunks' concatenation — never
/// reordered and never interleaved.
pub proof fn lemma_drain_keeps_order(v: SessionView, chunks: Seq<Seq<u8>>)
    requires
        v.buffer.len() + chunks.flatten().len() <= v.cap,
    ensures
        spec_drained(v, chunks).buffer == v.buffer + chunks.flatten(),
{
    crate::buffer::lemma_append_all_keeps_order(v.buffer, v.cap, chunks);
}

} // verus!
