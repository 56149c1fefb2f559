//! Wire-adjacent message representation and the uniform request/response
//! types handed to handlers.

use vstd::prelude::*;
use crate::body::BodyStream;

verus! {

/// One header field of a head, as raw bytes.
#[derive(Clone, Debug, PartialEq, Eq)]
pub struct HeaderField {
    pub name: Vec<u8>,
    pub value: Vec<u8>,
}

/// The head of a request: method, target and header set.
#[derive(Clone, Debug, PartialEq, Eq)]
pub struct RequestHead {
    pub method: Vec<u8>,
    pub target: Vec<u8>,
    pub headers: Vec<HeaderField>,
}

/// The head of a response: status code and header set.
#[derive(Clone, Debug, PartialEq, Eq)]
pub struct ResponseHead {
    pub status: u16,
    pub headers: Vec<HeaderField>,
}

/// A decoded wire message: a head, with or without a body.  The variant is
/// chosen at encode time by whether the produced body is observably empty,
/// so that an empty response never drags streaming machinery along.
#[derive(Debug)]
pub enum Message<H> {
    HeadOnly(H),
    HeadWithBody(H, BodyStream),
}

impl<H> Message<H> {
    /// The head carried by either variant.
    pub open spec fn head_of(self) -> H {
        match self {
            Message::HeadOnly(h) => h,
            Message::HeadWithBody(h, _) => h,
        }
    }

    /// The chunk sequence carried by the message; a head-only message
    /// carries the empty sequence.
    pub open spec fn chunks_of(self) -> Seq<Seq<u8>> {
        match self {
            Message::HeadOnly(_) => Seq::empty(),
            Message::HeadWithBody(_, b) => b@,
        }
    }
}

/// A request as a handler sees it: the body handle is always present — a
/// wire message without a body yields a pre-terminated empty stream, so
/// handler code never branches on body presence.
#[derive(Debug)]
pub struct Request {
    pub head: RequestHead,
    pub body: BodyStream,
}

/// A response as a handler produces it: like [`Request`], the body handle
/// is always present; an empty stream stands for "no body".
#[derive(Debug)]
pub struct Response {
    pub head: ResponseHead,
    pub body: BodyStream,
}

} // verus!
