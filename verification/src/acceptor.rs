//! The accept loop as a state machine: what the perpetual accept task does
//! with each thing the listening socket hands it.

use vstd::prelude::*;
use crate::conn::{ConnPolicy, ConnState};

verus! {

/// What the accept task can observe on one turn of its loop.
#[derive(Clone, Copy, Debug, PartialEq, Eq, Structural)]
pub enum AcceptEvent {
    /// The listener yielded a new raw connection.
    Incoming,
    /// One accept attempt failed.
    Failed,
    /// The one-shot shutdown signal resolved.
    ShutdownSignalled,
}

/// What the accept task does in response.
#[derive(Clone, Copy, Debug, PartialEq, Eq, Structural)]
pub enum AcceptAction {
    /// Ask the handler factory for a fresh instance and bind a connection
    /// task over the new socket.
    SpawnConnection,
    /// Log and keep accepting: a failed accept never stops the loop.
    ContinueListening,
    /// Stop accepting further connections.  Connection tasks already
    /// running are not cancelled; they finish on their own.
    StopListening,
}

/// The state of the accept task: the policy it binds each connection with,
/// and how many connections it has accepted so far.
#[derive(Clone, Copy, Debug, PartialEq, Eq, Structural)]
pub struct Acceptor {
    pub policy: ConnPolicy,
    pub accepted: u64,
}

impl Acceptor {
    /// The acceptor as `handle` starts it: nothing accepted yet.
    pub open spec fn initial_spec(policy: ConnPolicy) -> Acceptor {
        Acceptor { policy, accepted: 0 }
    }

    /// Starts the accept loop under the given connection policy.
    pub fn initial(policy: ConnPolicy) -> (a: Acceptor)
        ensures
            a == Acceptor::initial_spec(policy),
    {
        Acceptor { policy, accepted: 0 }
    }

    /// The loop's transition function, as a value: a new connection is
    /// spawned and counted; a failed accept is logged and the loop carries
    /// on (best-effort continuation — transient errors are invisible to
    /// peers); only the shutdown signal stops accepting.
    pub open spec fn accept_step_spec(self, e: AcceptEvent) -> (Acceptor, AcceptAction) {
        match e {
            AcceptEvent::Incoming => (
                Acceptor { accepted: (self.accepted + 1) as u64, ..self },
                AcceptAction::SpawnConnection,
            ),
            AcceptEvent::Failed => (self, AcceptAction::ContinueListening),
            AcceptEvent::ShutdownSignalled => (self, AcceptAction::StopListening),
        }
    }

    /// Advances the accept loop by one observed event.
    pub fn accept_step(&mut self, e: AcceptEvent) -> (action: AcceptAction)
        requires
            old(self).accepted < u64::MAX,
        ensures
            (*final(self), action) == old(self).accept_step_spec(e),
            action is StopListening <==> e is ShutdownSignalled,
    {
        match e {
            AcceptEvent::Incoming => {
                self.accepted = self.accepted + 1;
                AcceptAction::SpawnConnection
            },
            AcceptEvent::Failed => AcceptAction::ContinueListening,
            AcceptEvent::ShutdownSignalled => AcceptAction::StopListening,
        }
    }

    /// The state a spawned connection task starts in: each accepted
    /// connection runs under this acceptor's policy, open, nothing
    /// responded yet.
    pub fn spawn_state(&self) -> (s: ConnState)
        ensures
            s == ConnState::initial_spec(self.policy),
    {
        ConnState::initial(self.policy)
    }
}

} // verus!
