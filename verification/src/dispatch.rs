//! Per-connection pipelining discipline: responses leave in request receipt
//! order, independent of the order in which handlers complete.

use vstd::prelude::*;

verus! {

/// The responses that are ready to leave: the longest prefix of completed
/// slots, each in receipt order.  A pending slot blocks everything behind
/// it, however long ago the later handlers completed.
pub open spec fn ready_prefix<T>(slots: Seq<Option<T>>) -> Seq<T>
    decreases slots.len(),
{
    if slots.len() == 0 {
        Seq::empty()
    } else {
        match slots[0] {
            Option::Some(t) => seq![t] + ready_prefix(slots.drop_first()),
            Option::None => Seq::empty(),
        }
    }
}

/// The `k`-th response to leave is the completed response of the `k`-th
/// slot in receipt order: flushing never reorders, whatever order the
/// slots were completed in.
pub proof fn lemma_ready_prefix_index<T>(slots: Seq<Option<T>>, k: int)
    requires
        0 <= k < ready_prefix(slots).len(),
    ensures
        slots[k] is Some,
        ready_prefix(slots)[k] == slots[k].unwrap(),
    decreases slots.len(),
{
    lemma_ready_prefix_len(slots);
    assert(slots.len() > 0);
    assert(slots[0] is Some) by {
        if slots[0] is None {
            assert(ready_prefix(slots).len() == 0);
        }
    }
    assert(ready_prefix(slots) == seq![slots[0].unwrap()] + ready_prefix(slots.drop_first()));
    if k > 0 {
        lemma_ready_prefix_index(slots.drop_first(), k - 1);
        assert(slots.drop_first()[k - 1] == slots[k]);
    }
}

/// The ready prefix never outruns the slots it came from.
pub proof fn lemma_ready_prefix_len<T>(slots: Seq<Option<T>>)
    ensures
        ready_prefix(slots).len() <= slots.len(),
    decreases slots.len(),
{
    if slots.len() > 0 && slots[0] is Some {
        lemma_ready_prefix_len(slots.drop_first());
    }
}

/// Pipelining order.  Two requests, first A then B, are pending on one
/// connection and B's handler resolves before A's: after B alone has
/// completed nothing is ready to leave, and once A completes too, A's
/// response leaves before B's.
pub proof fn lemma_pipeline_order<T>(resp_a: T, resp_b: T)
    ensures
        ready_prefix(seq![None::<T>, None::<T>].update(1, Some(resp_b)))
            == Seq::<T>::empty(),
        ready_prefix(
            seq![None::<T>, None::<T>].update(1, Some(resp_b)).update(0, Some(resp_a)),
        ) == seq![resp_a, resp_b],
{
    let after_b = seq![None::<T>, None::<T>].update(1, Some(resp_b));
    assert(after_b[0] is None);
    assert(ready_prefix(after_b) == Seq::<T>::empty());
    let after_both = after_b.update(0, Some(resp_a));
    let tail = after_both.drop_first();
    assert(tail =~= seq![Some(resp_b)]);
    assert(tail.drop_first() =~= Seq::<Option<T>>::empty());
    assert(ready_prefix(tail.drop_first()) == Seq::<T>::empty());
    assert(ready_prefix(tail) == seq![resp_b] + Seq::<T>::empty());
    assert(ready_prefix(after_both) == seq![resp_a] + ready_prefix(tail));
    assert(ready_prefix(after_both) =~= seq![resp_a, resp_b]);
}

/// The dispatch queue of one connection.  Each request is given a slot in
/// receipt order; a handler completion fills its slot; a flush hands the
/// transport the longest completed prefix, in receipt order.  `emitted`
/// counts the responses already handed over, so slot `i` holds the request
/// received `emitted + i`-th.
pub struct Dispatch<T> {
    emitted: usize,
    slots: Vec<Option<T>>,
}

impl<T> Dispatch<T> {
    /// Responses already flushed to the transport.
    pub closed spec fn emitted_count(self) -> int {
        self.emitted as int
    }

    /// Slots still held, in receipt order: `None` while the handler of that
    /// request is outstanding.
    pub closed spec fn pending(self) -> Seq<Option<T>> {
        self.slots@
    }

    /// Receipt indices stay representable: the machine bound on how many
    /// requests one connection can have seen.
    pub open spec fn wf(self) -> bool {
        self.emitted_count() + self.pending().len() <= usize::MAX
    }

    /// A fresh connection: nothing received, nothing emitted.
    pub fn new() -> (d: Dispatch<T>)
        ensures
            d.wf(),
            d.emitted_count() == 0,
            d.pending() == Seq::<Option<T>>::empty(),
    {
        let d = Dispatch { emitted: 0, slots: Vec::new() };
        proof {
            assert(d.pending() =~= Seq::<Option<T>>::empty());
        }
        d
    }

    /// Records one more received request and returns its receipt index.
    /// The new slot is pending at the back: receipt order is the slot
    /// order.
    pub fn accept_request(&mut self) -> (id: usize)
        requires
            old(self).wf(),
            old(self).emitted_count() + old(self).pending().len() < usize::MAX,
        ensures
            final(self).wf(),
            id == old(self).emitted_count() + old(self).pending().len(),
            final(self).emitted_count() == old(self).emitted_count(),
            final(self).pending() == old(self).pending().push(None::<T>),
    {
        let id = self.emitted + self.slots.len();
        self.slots.push(None);
        id
    }

    /// Fills the slot of receipt index `id` with its handler's response.
    /// Completion order is free; only the slot named is touched.
    pub fn complete(&mut self, id: usize, response: T)
        requires
            old(self).wf(),
            old(self).emitted_count() <= id
                < old(self).emitted_count() + old(self).pending().len(),
            old(self).pending()[id - old(self).emitted_count()] is None,
        ensures
            final(self).wf(),
            final(self).emitted_count() == old(self).emitted_count(),
            final(self).pending() == old(self).pending().update(
                id - old(self).emitted_count(),
                Some(response),
            ),
    {
        let i = id - self.emitted;
        self.slots.set(i, Some(response));
    }

    /// Hands back every response that may leave now: the longest completed
    /// prefix of the slots, in receipt order.  The first slot still held
    /// afterwards, if any, is pending — nothing ready is withheld.
    pub fn flush(&mut self) -> (out: Vec<T>)
        requires
            old(self).wf(),
        ensures
            final(self).wf(),
            out@ == ready_prefix(old(self).pending()),
            final(self).pending() == old(self).pending().skip(out@.len() as int),
            final(self).emitted_count() == old(self).emitted_count() + out@.len(),
            final(self).pending().len() == 0 || final(self).pending()[0] is None,
    {
        let mut out: Vec<T> = Vec::new();
        proof {
            assert(self.pending() =~= old(self).pending().skip(0));
            assert(ready_prefix(old(self).pending()) =~= out@ + ready_prefix(self.pending()));
        }
        loop
            invariant
                self.wf(),
                out@.len() <= old(self).pending().len(),
                self.pending() == old(self).pending().skip(out@.len() as int),
                self.emitted_count() == old(self).emitted_count() + out@.len(),
                ready_prefix(old(self).pending()) == out@ + ready_prefix(self.pending()),
            ensures
                self.wf(),
                out@.len() <= old(self).pending().len(),
                self.pending() == old(self).pending().skip(out@.len() as int),
                self.emitted_count() == old(self).emitted_count() + out@.len(),
                ready_prefix(old(self).pending()) == out@ + ready_prefix(self.pending()),
                self.pending().len() == 0 || self.pending()[0] is None,
            decreases self.pending().len(),
        {
            if self.slots.len() == 0 {
                break;
            }
            if self.slots[0].is_none() {
                break;
            }
            let ghost before = self.pending();
            let ghost out_before = out@;
            let slot = self.slots.remove(0);
            self.emitted = self.emitted + 1;
            out.push(slot.unwrap());
            proof {
                assert(self.pending() =~= before.drop_first());
                assert(self.pending() =~= old(self).pending().skip(out@.len() as int));
                assert(ready_prefix(before) =~= seq![before[0].unwrap()]
                    + ready_prefix(before.drop_first()));
                assert(out@ + ready_prefix(self.pending()) =~= (out_before + seq![
                    before[0].unwrap(),
                ]) + ready_prefix(before.drop_first()));
                assert(out_before + ready_prefix(before) =~= out@ + ready_prefix(self.pending()));
            }
        }
        proof {
            assert(ready_prefix(self.pending()) =~= Seq::<T>::empty());
            assert(out@ =~= ready_prefix(old(self).pending()));
        }
        out
    }
}

} // verus!
