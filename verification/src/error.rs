//! The error taxonomy of the server core, and the policy that decides what
//! each kind of failure stops.

use vstd::prelude::*;

verus! {

/// Every failure the core distinguishes.
#[derive(Clone, Copy, Debug, PartialEq, Eq, Structural)]
pub enum Error {
    /// Socket setup failed; the server never starts.
    Bind,
    /// One accept attempt failed; the accept loop carries on.
    Accept,
    /// Decode, encode or I/O failed on one connection.
    Transport,
    /// A handler's asynchronous result was a failure.
    Handler,
}

/// Whether the failure keeps the whole server from starting or running.
/// Only a bind failure is fatal to the server; every other kind is scoped
/// to one accept attempt or one connection.
pub fn stops_server(e: &Error) -> (r: bool)
    ensures
        r == (*e is Bind),
{
    match e {
        Error::Bind => true,
        Error::Accept => false,
        Error::Transport => false,
        Error::Handler => false,
    }
}

/// Whether the failure terminates the connection task it arose on.  A
/// transport failure does; so does a handler failure — no fallback response
/// is synthesized, the peer sees an abrupt close.  Accept failures belong
/// to no connection, and a bind failure precedes every connection.
pub fn terminates_connection(e: &Error) -> (r: bool)
    ensures
        r == (*e is Transport || *e is Handler),
{
    match e {
        Error::Bind => false,
        Error::Accept => false,
        Error::Transport => true,
        Error::Handler => true,
    }
}

} // verus!
