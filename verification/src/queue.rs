use vstd::prelude::*;
use crate::envelope::{Envelope, EnvelopeView};

verus! {

/// Capacity of the relay's dispatch queue.
pub const DISPATCH_CAPACITY: usize = 1024;

/// Outcome of an enqueue attempt: accepted, or the queue was at capacity
/// and the envelope comes back untouched for a later retry.
pub enum Enqueued {
    Accepted,
    Full(Envelope),
}

/// The Dispatch Queue: a bounded FIFO of pending envelopes between
/// message admission and the delivery worker. No priority, no
/// reordering, no deduplication; the bound exists for backpressure.
pub struct DispatchQueue {
    items: Vec<Envelope>,
    capacity: usize,
}

impl View for DispatchQueue {
    type V = Seq<EnvelopeView>;

    closed spec fn view(&self) -> Seq<EnvelopeView> {
        self.items@.map_values(|e: Envelope| e@)
    }
}

impl DispatchQueue {
    pub closed spec fn cap(&self) -> nat {
        self.capacity as nat
    }

    pub fn new(capacity: usize) -> (r: DispatchQueue)
        requires
            1 <= capacity,
        ensures
            r@ == Seq::<EnvelopeView>::empty(),
            r.cap() == capacity as nat,
    {
        let r = DispatchQueue { items: Vec::new(), capacity };
        proof {
            assert(r@ =~= Seq::<EnvelopeView>::empty());
        }
        r
    }

    pub fn capacity(&self) -> (r: usize)
        ensures
            r as nat == self.cap(),
    {
        self.capacity
    }

    pub fn len(&self) -> (r: usize)
        ensures
            r == self@.len(),
    {
        self.items.len()
    }

    /// Append one envelope. A queue at capacity refuses it and hands it
    /// back unchanged: admission never drops an accepted message, it
    /// waits for a slot.
    pub fn enqueue(&mut self, env: Envelope) -> (r: Enqueued)
        ensures
            final(self).cap() == old(self).cap(),
            old(self)@.len() < old(self).cap() ==> (r is Accepted && final(self)@ == old(
                self,
            )@.push(env@)),
            old(self)@.len() >= old(self).cap() ==> (final(self)@ == old(self)@ && (r matches
            Enqueued::Full(e) && e == env)),
    {
        if self.items.len() < self.capacity {
            let ghost pre = self@;
            let ghost ev = env@;
            self.items.push(env);
            proof {
                assert(self@ =~= pre.push(ev));
            }
            Enqueued::Accepted
        } else {
            Enqueued::Full(env)
        }
    }

    /// Hand out the oldest pending envelope; ownership transfers to the
    /// caller and the envelope is consumed, never reused.
    pub fn dequeue(&mut self) -> (r: Option<Envelope>)
        ensures
            final(self).cap() == old(self).cap(),
            old(self)@.len() == 0 ==> (r is None && final(self)@ == old(self)@),
            old(self)@.len() > 0 ==> (r matches Some(e) && e@ == old(self)@[0] && final(self)@
                == old(self)@.drop_first()),
    {
        if self.items.len() == 0 {
            None
        } else {
            let ghost pre = self@;
            let ghost pre_items = self.items@;
            let e = self.items.remove(0);
            proof {
                pre_items.remove_ensures(0);
                assert(self@ =~= pre.drop_first());
            }
            Some(e)
        }
    }
}

/// The delivery history is consistent when the envelopes enqueued so far
/// are exactly the ones already delivered followed by the pending ones.
pub open spec fn fifo_consistent(
    enqueued: Seq<EnvelopeView>,
    delivered: Seq<EnvelopeView>,
    pending: Seq<EnvelopeView>,
) -> bool {
    enqueued == delivered + pending
}

/// Law (FIFO delivery): admitting one more envelope keeps the history
/// consistent — it joins the back of the pending queue.
pub proof fn lemma_enqueue_preserves_fifo(
    enqueued: Seq<EnvelopeView>,
    delivered: Seq<EnvelopeView>,
    pending: Seq<EnvelopeView>,
    e: EnvelopeView,
)
    requires
        fifo_consistent(enqueued, delivered, pending),
    ensures
        fifo_consistent(enqueued.push(e), delivered, pending.push(e)),
{
    assert(delivered + pending.push(e) =~= (delivered + pending).push(e));
}

/// Law (FIFO delivery): the worker always takes the oldest pending
/// envelope, so after every delivery the delivered sequence is still the
/// exact front of the enqueued sequence, in enqueue order.
pub proof fn lemma_dequeue_preserves_fifo(
    enqueued: Seq<EnvelopeView>,
    delivered: Seq<EnvelopeView>,
    pending: Seq<EnvelopeView>,
)
    requires
        fifo_consistent(enqueued, delivered, pending),
        pending.len() > 0,
    ensures
        fifo_consistent(enqueued, delivered.push(pending[0]), pending.drop_first()),
        delivered.push(pending[0]) == enqueued.take(delivered.len() as int + 1),
{
    assert(delivered.push(pending[0]) + pending.drop_first() =~= delivered + pending);
    assert(delivered.push(pending[0]) =~= enqueued.take(delivered.len() as int + 1));
}

/// Law (FIFO delivery): a consistent history means everything delivered
/// so far is exactly the first part of what was enqueued, in order.
pub proof fn lemma_delivered_is_prefix(
    enqueued: Seq<EnvelopeView>,
    delivered: Seq<EnvelopeView>,
    pending: Seq<EnvelopeView>,
)
    requires
        fifo_consistent(enqueued, delivered, pending),
    ensures
        delivered == enqueued.take(delivered.len() as int),
{
    assert(delivered =~= enqueued.take(delivered.len() as int));
}

/// Law (backpressure): when the queue stands at capacity, one delivery
/// frees exactly one slot, so the suspended admission can proceed.
pub proof fn lemma_backpressure(pending: Seq<EnvelopeView>, cap: nat)
    requires
        pending.len() == cap,
        cap >= 1,
    ensures
        pending.drop_first().len() < cap,
{
}

} // verus!
