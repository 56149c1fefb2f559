//! The shutdown controller: the listening handle, its one-shot shutdown
//! signal, and the loop that drives the scheduler until that signal
//! resolves.

use vstd::prelude::*;
use crate::server::Addr;

verus! {

/// The sender side of the one-shot shutdown channel, as the receiver sees
/// it.
#[derive(Clone, Copy, Debug, PartialEq, Eq, Structural)]
pub enum SignalState {
    /// The listening handle still holds the sender: the receiver waits.
    Pending,
    /// [`Listening::close`] sent the signal.
    Requested,
    /// The listening handle was discarded without an explicit close.
    Abandoned,
}

/// Whether the receiver has resolved, which tells the loop to stop
/// driving.  A sent signal and a dropped sender resolve it alike; the loop
/// treats the two identically.
pub open spec fn stops_driving(s: SignalState) -> bool {
    s is Requested || s is Abandoned
}

/// A handle of the running server: the bound address and the sender side
/// of the one-shot shutdown channel.
#[derive(Debug)]
pub struct Listening {
    addr: Addr,
}

impl Listening {
    /// The address the server is listening on.
    pub closed spec fn addr_spec(self) -> Addr {
        self.addr
    }

    /// The addresses this server is listening on.
    pub fn addr(&self) -> (a: Addr)
        ensures
            a == self.addr_spec(),
    {
        self.addr
    }

    /// While the handle lives it holds the sender: the receiver still
    /// waits, and the loop keeps driving.
    pub fn signal(&self) -> (s: SignalState)
        ensures
            s is Pending,
            !stops_driving(s),
    {
        SignalState::Pending
    }

    /// Stop the server from listening to its socket address: consumes the
    /// handle and sends the one-shot shutdown signal.
    pub fn close(self) -> (s: SignalState)
        ensures
            s is Requested,
            stops_driving(s),
    {
        SignalState::Requested
    }

    /// What discarding the handle without a close amounts to: the sender
    /// side is dropped, which resolves the receiver just as a close does.
    pub fn abandon(self) -> (s: SignalState)
        ensures
            s is Abandoned,
            stops_driving(s),
    {
        SignalState::Abandoned
    }
}

/// A configured server loop, ready to run: it owns the scheduler and the
/// receiver side of the shutdown channel.  Driving the scheduler to
/// completion happens exactly once over the loop's whole life, whether
/// through [`ServerLoop::run`] or through the release that stands in for
/// discarding the loop.
#[derive(Debug)]
pub struct ServerLoop {
    active: bool,
    drives: u64,
}

impl ServerLoop {
    /// Whether the scheduler is still held and must be driven before the
    /// loop can be let go.
    pub closed spec fn pending(self) -> bool {
        self.active
    }

    /// How many completed drive-to-completion runs this loop has performed.
    pub closed spec fn drive_count(self) -> int {
        self.drives as int
    }

    /// A loop never drives more than once, and a drive retires it.
    pub closed spec fn wf(self) -> bool {
        &&& self.drives <= 1
        &&& (self.active ==> self.drives == 0)
    }

    /// The loop after one release: retired, and driven once more exactly
    /// when it was still pending.
    pub closed spec fn released(self) -> ServerLoop {
        if self.active {
            ServerLoop { active: false, drives: (self.drives + 1) as u64 }
        } else {
            self
        }
    }

    /// Releases the scheduler: if the loop is still pending, performs the
    /// one blocking drive-to-completion; a loop already driven is left
    /// alone.  This is what discarding the loop performs, so forgetting to
    /// call [`ServerLoop::run`] still advances the scheduler to shutdown.
    pub fn release(&mut self)
        requires
            old(self).wf(),
        ensures
            final(self).wf(),
            *final(self) == old(self).released(),
            !final(self).pending(),
            final(self).drive_count() == old(self).drive_count()
                + if old(self).pending() { 1int } else { 0int },
            final(self).drive_count() <= 1,
    {
        if self.active {
            self.active = false;
            self.drives = self.drives + 1;
        }
    }

    /// How many completed drive-to-completion runs this loop has
    /// performed, as a value.
    pub fn drives_done(&self) -> (n: u64)
        ensures
            n as int == self.drive_count(),
    {
        self.drives
    }

    /// Runs the server loop: blocks until the shutdown receiver resolves,
    /// then consumes the loop.  Returns how many drive-to-completion runs
    /// the loop performed over its life — one, for a loop not yet driven.
    pub fn run(self) -> (n: u64)
        requires
            self.wf(),
        ensures
            n == self.released().drive_count(),
            self.pending() ==> n == 1,
    {
        let mut this = self;
        this.release();
        this.drives
    }
}

/// Creates the paired handle and loop over a fresh one-shot shutdown
/// channel: the handle carries the bound address and the sender, the loop
/// owns the scheduler and the receiver, not yet driven.
pub fn shutdown_pair(addr: Addr) -> (r: (Listening, ServerLoop))
    ensures
        r.0.addr_spec() == addr,
        r.1.wf(),
        r.1.pending(),
        r.1.drive_count() == 0,
{
    (Listening { addr }, ServerLoop { active: true, drives: 0 })
}

/// Shutdown idempotence.  A pending loop is driven to completion exactly
/// once: the release that stands for discarding it performs the single
/// drive, and releasing again — the discard after an explicit run — adds
/// none.
pub proof fn lemma_single_drive(l: ServerLoop)
    requires
        l.wf(),
        l.pending(),
    ensures
        l.released().drive_count() == 1,
        !l.released().pending(),
        l.released().released() == l.released(),
{
}

} // verus!
