//! Server configuration and the binding step that turns a configuration
//! into a running acceptor and its shutdown pair.

use vstd::prelude::*;
use crate::acceptor::Acceptor;
use crate::conn::ConnPolicy;
use crate::error::Error;
use crate::shutdown::{shutdown_pair, Listening, ServerLoop};

verus! {

/// A socket address as the core reads it: a v4 host and a port.  Binding
/// and resolving live outside the library; the core only carries the
/// address through and hands it back from the listening handle.
#[derive(Clone, Copy, Debug, PartialEq, Eq, Structural)]
pub struct Addr {
    pub host: u32,
    pub port: u16,
}

/// A server that can accept incoming network requests: the address to bind
/// and the per-connection policy, built by chained setters and immutable
/// once the socket is bound.
#[derive(Clone, Copy, Debug, PartialEq, Eq, Structural)]
pub struct Server {
    pub addr: Addr,
    pub keep_alive: bool,
    pub idle_timeout_ms: Option<u64>,
    pub max_sockets: usize,
}

/// The default idle timeout, in milliseconds.
pub const DEFAULT_IDLE_TIMEOUT_MS: u64 = 10_000;

/// The default bound on open sockets.
pub const DEFAULT_MAX_SOCKETS: usize = 4096;

impl Server {
    /// Creates a new HTTP server config listening on the provided address:
    /// keep-alive on, a ten-second idle timeout, and the default socket
    /// bound.
    pub fn http(addr: &Addr) -> (r: Result<Server, Error>)
        ensures
            r is Ok,
            r.unwrap() == (Server {
                addr: *addr,
                keep_alive: true,
                idle_timeout_ms: Some(DEFAULT_IDLE_TIMEOUT_MS),
                max_sockets: DEFAULT_MAX_SOCKETS,
            }),
    {
        Ok(
            Server {
                addr: *addr,
                keep_alive: true,
                idle_timeout_ms: Some(DEFAULT_IDLE_TIMEOUT_MS),
                max_sockets: DEFAULT_MAX_SOCKETS,
            },
        )
    }

    /// Enables or disables HTTP keep-alive.  Default is true.
    pub fn keep_alive(self, val: bool) -> (s: Server)
        ensures
            s == (Server { keep_alive: val, ..self }),
    {
        Server { keep_alive: val, ..self }
    }

    /// Sets how long an idle connection will be kept before closing, in
    /// milliseconds; `None` disables the idle check.  Default is ten
    /// seconds.
    pub fn idle_timeout(self, val: Option<u64>) -> (s: Server)
        ensures
            s == (Server { idle_timeout_ms: val, ..self }),
    {
        Server { idle_timeout_ms: val, ..self }
    }

    /// Sets the maximum open sockets for this server.  Default is 4096.
    pub fn max_sockets(self, val: usize) -> (s: Server)
        ensures
            s == (Server { max_sockets: val, ..self }),
    {
        Server { max_sockets: val, ..self }
    }

    /// The policy every connection bound under this configuration runs
    /// with.
    pub open spec fn policy_spec(self) -> ConnPolicy {
        ConnPolicy { keep_alive: self.keep_alive, idle_timeout_ms: self.idle_timeout_ms }
    }

    /// Binds to a socket and starts handling connections: `bound` is what
    /// the bind attempt produced — the address actually bound, or nothing.
    /// A bind failure surfaces synchronously as [`Error::Bind`]; success
    /// yields the bound address and a fresh acceptor carrying this
    /// configuration's connection policy.
    pub fn handle(&self, bound: Option<Addr>) -> (r: Result<(Addr, Acceptor), Error>)
        ensures
            r is Ok <==> bound is Some,
            r is Ok ==> r.unwrap().0 == bound.unwrap()
                && r.unwrap().1 == Acceptor::initial_spec(self.policy_spec()),
            r is Err ==> r.unwrap_err() == Error::Bind,
    {
        match bound {
            Option::Some(addr) => Ok((addr, Acceptor::initial(self.policy()))),
            Option::None => Err(Error::Bind),
        }
    }

    /// Like [`Server::handle`], but also owns the scheduling primitive:
    /// on success the caller gets the listening handle and the paired loop
    /// over a fresh one-shot shutdown channel, the loop not yet driven.
    pub fn standalone(&self, bound: Option<Addr>) -> (r: Result<
        (Listening, ServerLoop, Acceptor),
        Error,
    >)
        ensures
            r is Ok <==> bound is Some,
            r is Ok ==> {
                let (listening, server_loop, acceptor) = r.unwrap();
                &&& listening.addr_spec() == bound.unwrap()
                &&& server_loop.wf()
                &&& server_loop.pending()
                &&& server_loop.drive_count() == 0
                &&& acceptor == Acceptor::initial_spec(self.policy_spec())
            },
            r is Err ==> r.unwrap_err() == Error::Bind,
    {
        match self.handle(bound) {
            Ok((addr, acceptor)) => {
                let (listening, server_loop) = shutdown_pair(addr);
                Ok((listening, server_loop, acceptor))
            },
            Err(e) => Err(e),
        }
    }

    /// The connection policy, as a value.
    fn policy(&self) -> (p: ConnPolicy)
        ensures
            p == self.policy_spec(),
    {
        ConnPolicy { keep_alive: self.keep_alive, idle_timeout_ms: self.idle_timeout_ms }
    }
}

} // verus!
