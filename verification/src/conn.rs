//! The per-connection binding loop as a state machine: what one connection
//! task does next, for every event its transport, timer or handler can
//! raise.

use vstd::prelude::*;

verus! {

/// The per-connection slice of the server configuration, fixed when the
/// connection is bound.
#[derive(Clone, Copy, Debug, PartialEq, Eq, Structural)]
pub struct ConnPolicy {
    /// When false, the connection closes after the first response has been
    /// fully written, whatever the transport signals.
    pub keep_alive: bool,
    /// How long the connection may sit idle before it is closed; `None`
    /// disables the idle check.
    pub idle_timeout_ms: Option<u64>,
}

/// What one connection task can observe between two of its steps.
#[derive(Clone, Copy, Debug, PartialEq, Eq, Structural)]
pub enum ConnEvent {
    /// The transport decoded the next request message.
    MessageArrived,
    /// One response has been fully written to the transport.
    ResponseWritten,
    /// The transport signalled that the peer closed the connection.
    TransportClosed,
    /// The transport surfaced a decode, encode or I/O failure.
    TransportFailed,
    /// The handler's asynchronous result was a failure.
    HandlerFailed,
    /// The configured idle period elapsed with no activity.
    IdleElapsed,
}

/// What the connection task does in response.
#[derive(Clone, Copy, Debug, PartialEq, Eq, Structural)]
pub enum ConnAction {
    /// Decode the message and dispatch it to the handler.
    Dispatch,
    /// Keep reading from the transport.
    KeepReading,
    /// Close the connection and end its task.
    Close,
}

/// The state one connection task carries between events.
#[derive(Clone, Copy, Debug, PartialEq, Eq, Structural)]
pub struct ConnState {
    pub policy: ConnPolicy,
    /// False once the task has decided to close; no event reopens it.
    pub open: bool,
    /// Whether at least one response has been fully written.
    pub responded: bool,
}

impl ConnState {
    /// The state of a freshly bound connection under the given policy.
    pub open spec fn initial_spec(policy: ConnPolicy) -> ConnState {
        ConnState { policy, open: true, responded: false }
    }

    /// Binds a fresh connection: open, nothing responded yet.
    pub fn initial(policy: ConnPolicy) -> (s: ConnState)
        ensures
            s == ConnState::initial_spec(policy),
    {
        ConnState { policy, open: true, responded: false }
    }

    /// Whether an idle timeout is configured for this connection.
    fn idle_configured(&self) -> (r: bool)
        ensures
            r == (self.policy.idle_timeout_ms is Some),
    {
        self.policy.idle_timeout_ms.is_some()
    }
}

/// The loop's transition function, as a value: the state and action that
/// follow one event.
///
/// A message is dispatched; a written response closes the connection when
/// keep-alive is off, else reading goes on; peer close, transport failure
/// and handler failure each close the connection (a failed handler gets no
/// fallback response); the idle timer closes it only when one is
/// configured.
pub open spec fn conn_step_spec(s: ConnState, e: ConnEvent) -> (ConnState, ConnAction) {
    match e {
        ConnEvent::MessageArrived => (s, ConnAction::Dispatch),
        ConnEvent::ResponseWritten => {
            let responded = ConnState { responded: true, ..s };
            if s.policy.keep_alive {
                (responded, ConnAction::KeepReading)
            } else {
                (ConnState { open: false, ..responded }, ConnAction::Close)
            }
        },
        ConnEvent::TransportClosed => (ConnState { open: false, ..s }, ConnAction::Close),
        ConnEvent::TransportFailed => (ConnState { open: false, ..s }, ConnAction::Close),
        ConnEvent::HandlerFailed => (ConnState { open: false, ..s }, ConnAction::Close),
        ConnEvent::IdleElapsed => {
            if s.policy.idle_timeout_ms is Some {
                (ConnState { open: false, ..s }, ConnAction::Close)
            } else {
                (s, ConnAction::KeepReading)
            }
        },
    }
}

/// Advances one connection task by one observed event.
pub fn conn_step(s: ConnState, e: ConnEvent) -> (r: (ConnState, ConnAction))
    requires
        s.open,
    ensures
        r == conn_step_spec(s, e),
        r.1 is Close <==> !r.0.open,
        r.0.policy == s.policy,
{
    match e {
        ConnEvent::MessageArrived => (s, ConnAction::Dispatch),
        ConnEvent::ResponseWritten => {
            if s.policy.keep_alive {
                (ConnState { responded: true, ..s }, ConnAction::KeepReading)
            } else {
                (ConnState { open: false, responded: true, ..s }, ConnAction::Close)
            }
        },
        ConnEvent::TransportClosed => (ConnState { open: false, ..s }, ConnAction::Close),
        ConnEvent::TransportFailed => (ConnState { open: false, ..s }, ConnAction::Close),
        ConnEvent::HandlerFailed => (ConnState { open: false, ..s }, ConnAction::Close),
        ConnEvent::IdleElapsed => {
            if s.idle_configured() {
                (ConnState { open: false, ..s }, ConnAction::Close)
            } else {
                (s, ConnAction::KeepReading)
            }
        },
    }
}

/// With keep-alive disabled, the first fully written response closes the
/// connection, whatever the transport signals afterwards.
pub proof fn lemma_keep_alive_off_closes(s: ConnState)
    requires
        !s.policy.keep_alive,
    ensures
        conn_step_spec(s, ConnEvent::ResponseWritten).1 is Close,
        !conn_step_spec(s, ConnEvent::ResponseWritten).0.open,
{
}

} // verus!
