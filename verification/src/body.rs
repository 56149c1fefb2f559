//! Body streams: lazy, finite, non-restartable sequences of byte chunks.

use vstd::prelude::*;

verus! {

/// A finite sequence of byte chunks, consumable exactly once: each call to
/// [`BodyStream::poll_chunk`] hands out the front chunk and forgets it.  An
/// empty stream is a valid, immediately-terminated instance, distinct from
/// "no body" at the wire level.
#[derive(Debug)]
pub struct BodyStream {
    chunks: Vec<Vec<u8>>,
}

impl View for BodyStream {
    type V = Seq<Seq<u8>>;

    closed spec fn view(&self) -> Seq<Seq<u8>> {
        self.chunks@.map_values(|c: Vec<u8>| c@)
    }
}

impl BodyStream {
    /// A pre-terminated stream: polling it yields no chunks, ever.
    pub fn empty() -> (b: BodyStream)
        ensures
            b@ == Seq::<Seq<u8>>::empty(),
    {
        let b = BodyStream { chunks: Vec::new() };
        proof {
            assert(b@ =~= Seq::<Seq<u8>>::empty());
        }
        b
    }

    /// A stream that yields exactly the given chunks, in order.
    pub fn from_chunks(chunks: Vec<Vec<u8>>) -> (b: BodyStream)
        ensures
            b@ == chunks@.map_values(|c: Vec<u8>| c@),
    {
        BodyStream { chunks }
    }

    /// Appends one more chunk at the back of the stream.
    pub fn push_chunk(&mut self, chunk: Vec<u8>)
        ensures
            final(self)@ == old(self)@.push(chunk@),
    {
        let ghost prev = self.chunks@;
        self.chunks.push(chunk);
        proof {
            assert(self@ =~= old(self)@.push(chunk@));
        }
    }

    /// True exactly when the stream has no chunks left.
    pub fn is_empty(&self) -> (r: bool)
        ensures
            r == (self@.len() == 0),
    {
        self.chunks.len() == 0
    }

    /// Consumes and returns the front chunk; `None` once the stream has
    /// terminated.  The stream cannot be restarted.
    pub fn poll_chunk(&mut self) -> (r: Option<Vec<u8>>)
        ensures
            old(self)@.len() == 0 ==> r is None && final(self)@ == old(self)@,
            old(self)@.len() > 0 ==> r is Some && r.unwrap()@ == old(self)@[0]
                && final(self)@ == old(self)@.drop_first(),
    {
        if self.chunks.len() == 0 {
            None
        } else {
            let c = self.chunks.remove(0);
            proof {
                assert(self@ =~= old(self)@.drop_first());
            }
            Some(c)
        }
    }
}

} // verus!
