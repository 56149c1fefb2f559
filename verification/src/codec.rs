//! The service adapter: converts between wire messages and the uniform
//! request/response contract, in both directions.

use vstd::prelude::*;
use crate::body::BodyStream;
use crate::message::{Message, Request, RequestHead, Response, ResponseHead};

verus! {

/// Splits a message into its head and a body stream.  A head-only message
/// yields a pre-terminated empty stream (no streaming machinery is set up),
/// never `None`: downstream code always holds a body handle.
pub fn split_message<H>(m: Message<H>) -> (r: (H, BodyStream))
    ensures
        r.0 == m.head_of(),
        r.1@ == m.chunks_of(),
        m is HeadOnly ==> r.1@.len() == 0,
{
    match m {
        Message::HeadOnly(h) => (h, BodyStream::empty()),
        Message::HeadWithBody(h, b) => (h, b),
    }
}

/// Joins a head and a body back into a message.  The variant is decided by
/// whether the body is observably empty: an empty body yields `HeadOnly`,
/// never `HeadWithBody` with a zero-chunk stream.
pub fn join_message<H>(head: H, body: BodyStream) -> (m: Message<H>)
    ensures
        m.head_of() == head,
        m.chunks_of() == body@,
        m is HeadOnly <==> body@.len() == 0,
{
    if body.is_empty() {
        Message::HeadOnly(head)
    } else {
        Message::HeadWithBody(head, body)
    }
}

/// Splitting a message and joining the parts back reproduces the head and
/// the same chunk sequence in the same order, for every message; the joined
/// variant is head-only exactly when the chunk sequence is empty.  This is
/// the path a message takes through an echo handler.
pub fn echo_message<H>(m: Message<H>) -> (r: Message<H>)
    ensures
        r.head_of() == m.head_of(),
        r.chunks_of() == m.chunks_of(),
        r is HeadOnly <==> m.chunks_of().len() == 0,
{
    let (head, body) = split_message(m);
    join_message(head, body)
}

/// What it means for a wire message to be the encoding of a response with
/// the given head and chunk sequence: head and chunks carried over
/// unchanged, and the variant decided by emptiness.
pub open spec fn is_encoding_of(
    m: Message<ResponseHead>,
    head: ResponseHead,
    chunks: Seq<Seq<u8>>,
) -> bool {
    &&& m.head_of() == head
    &&& m.chunks_of() == chunks
    &&& (m is HeadOnly <==> chunks.len() == 0)
}

/// Builds the uniform request a handler receives from a decoded wire
/// message: the head is carried over unchanged, and the body handle is the
/// carried stream, or a pre-terminated empty stream for a head-only
/// message — that request's body yields zero chunks and terminates at once.
pub fn decode(m: Message<RequestHead>) -> (r: Request)
    ensures
        r.head == m.head_of(),
        r.body@ == m.chunks_of(),
        m is HeadOnly ==> r.body@.len() == 0,
{
    let (head, body) = split_message(m);
    Request { head, body }
}

/// Encodes a handler's response as a wire message: the head is carried over
/// unchanged, and a response whose body is empty becomes `HeadOnly`, never
/// `HeadWithBody` with a zero-chunk stream.
pub fn encode(r: Response) -> (m: Message<ResponseHead>)
    ensures
        m.head_of() == r.head,
        m.chunks_of() == r.body@,
        m is HeadOnly <==> r.body@.len() == 0,
{
    join_message(r.head, r.body)
}

} // verus!
