//! The handler contract — the system's sole extension point — and the
//! adapter step that carries one message through a handler.

use vstd::prelude::*;
use crate::codec::{decode, encode, is_encoding_of};
use crate::dispatch::{ready_prefix, Dispatch};
use crate::error::Error;
use crate::message::{Message, Request, RequestHead, Response, ResponseHead};

verus! {

/// A user-supplied request processor.  The scheduler suspends the
/// connection task while a call's result is outstanding; the handler must
/// never block the thread itself.
pub trait Handler {
    /// Processes one request into one response, or fails; a failure
    /// terminates the connection task, with no fallback response.
    fn call(&mut self, req: Request) -> Result<Response, Error>;
}

/// A per-connection factory of handlers: each accepted connection gets a
/// fresh instance, so handlers can keep per-connection state without
/// shared mutability.
pub trait NewHandler {
    type Instance: Handler;

    /// Produces the handler instance of one new connection.
    fn new_handler(&mut self) -> Result<Self::Instance, Error>;
}

/// Carries one decoded message through a handler: builds the uniform
/// request, dispatches it, and encodes the result.  Whatever the handler
/// returned, an emitted message obeys the variant discipline — head-only
/// exactly when its body is empty — and a handler failure is passed
/// through untouched, to terminate the connection task.
pub fn handle_message<H: Handler>(h: &mut H, m: Message<RequestHead>) -> (r: Result<
    Message<ResponseHead>,
    Error,
>)
    ensures
        r is Ok ==> (r.unwrap() is HeadOnly <==> r.unwrap().chunks_of().len() == 0),
{
    let req = decode(m);
    match h.call(req) {
        Ok(resp) => Ok(encode(resp)),
        Err(e) => Err(e),
    }
}

/// A handler that echoes the request body back under a fixed status, with
/// no headers of its own.
pub struct EchoHandler {
    pub status: u16,
}

impl EchoHandler {
    /// The echo response: the configured status, no headers, and exactly
    /// the request's body, chunk for chunk.
    pub fn respond(&self, req: Request) -> (r: Response)
        ensures
            r.head.status == self.status,
            r.head.headers@.len() == 0,
            r.body@ == req.body@,
    {
        Response { head: ResponseHead { status: self.status, headers: Vec::new() }, body: req.body }
    }
}

impl Handler for EchoHandler {
    fn call(&mut self, req: Request) -> Result<Response, Error> {
        Ok(self.respond(req))
    }
}

/// The adapter's resumption on one connection: the handler of the request
/// with receipt index `id` resolved with `response`.  The response is
/// recorded in its slot, and everything the pipelining discipline now
/// permits to leave — the longest completed prefix of the slots — is
/// encoded and handed back for the transport, in receipt order.  A later
/// request whose handler resolved earlier stays held until its turn.
pub fn resume(d: &mut Dispatch<Response>, id: usize, response: Response) -> (out: Vec<
    Message<ResponseHead>,
>)
    requires
        old(d).wf(),
        old(d).emitted_count() <= id < old(d).emitted_count() + old(d).pending().len(),
        old(d).pending()[id - old(d).emitted_count()] is None,
    ensures
        final(d).wf(),
        ({
            let updated = old(d).pending().update(id - old(d).emitted_count(), Some(response));
            let ready = ready_prefix(updated);
            &&& out@.len() == ready.len()
            &&& final(d).pending() == updated.skip(ready.len() as int)
            &&& final(d).emitted_count() == old(d).emitted_count() + ready.len()
            &&& forall|k: int|
                0 <= k < ready.len() ==> is_encoding_of(
                    #[trigger] out@[k],
                    ready[k].head,
                    ready[k].body@,
                )
        }),
{
    d.complete(id, response);
    let mut ready = d.flush();
    let ghost flushed = ready@;
    let mut out: Vec<Message<ResponseHead>> = Vec::new();
    proof {
        assert(ready@ =~= flushed.skip(0));
    }
    while ready.len() > 0
        invariant
            out@.len() + ready@.len() == flushed.len(),
            ready@ == flushed.skip(out@.len() as int),
            forall|k: int|
                0 <= k < out@.len() ==> is_encoding_of(
                    #[trigger] out@[k],
                    flushed[k].head,
                    flushed[k].body@,
                ),
        decreases ready@.len(),
    {
        let ghost emitted_before = out@.len() as int;
        let next = ready.remove(0);
        out.push(encode(next));
        proof {
            assert(ready@ =~= flushed.skip(out@.len() as int));
            assert(flushed[emitted_before] == next);
        }
    }
    out
}

/// One full exchange through an echo handler: decoding a message, echoing
/// it, and encoding the result reproduces the same chunk sequence in the
/// same order, for every message — and the emitted variant is head-only
/// exactly when that sequence is empty.
pub fn echo_exchange(status: u16, m: Message<RequestHead>) -> (r: Message<ResponseHead>)
    ensures
        r.chunks_of() == m.chunks_of(),
        r.head_of().status == status,
        r is HeadOnly <==> m.chunks_of().len() == 0,
{
    let req = decode(m);
    let handler = EchoHandler { status };
    let resp = handler.respond(req);
    encode(resp)
}

} // verus!
