//! The bounded, ordered ingress queue that buffers audio chunks between the
//! caller's submission path and the outbound forwarder.
//!
//! The queue is strictly FIFO and applies backpressure by failing fast: an
//! enqueue onto a full queue is rejected, never silently dropped. Closing the
//! queue rejects every later enqueue; chunks already buffered may still be
//! drained, and a dequeue that finds the closed queue empty reports `Closed`.

use vstd::prelude::*;

verus! {

/// The chunks a buffer holds, each as its byte sequence, in buffer order.
pub open spec fn chunks_view(v: Seq<Vec<u8>>) -> Seq<Seq<u8>> {
    Seq::new(v.len(), |i: int| v[i]@)
}

/// Why an enqueue was rejected.
#[derive(Debug, Clone, Copy, PartialEq, Eq, Structural)]
pub enum EnqueueError {
    /// The queue was closed by session teardown.
    Closed,
    /// The queue is at capacity; the caller must back off and resubmit.
    Full,
}

/// What a dequeue found.
pub enum Dequeued {
    /// The chunk at the head of the queue.
    Chunk(Vec<u8>),
    /// Nothing buffered yet, but the queue is still open: the consumer should
    /// wait for the producer.
    Pending,
    /// Nothing buffered and the queue is closed: the consumer is done.
    Closed,
}

/// A bounded FIFO queue of audio chunks with a single producer (the caller)
/// and a single consumer (the outbound forwarder).
pub struct IngressQueue {
    items: Vec<Vec<u8>>,
    capacity: usize,
    closed: bool,
}

impl IngressQueue {
    /// The buffered chunks, oldest first.
    pub closed spec fn pending(self) -> Seq<Seq<u8>> {
        chunks_view(self.items@)
    }

    /// The bound the queue was created with.
    pub closed spec fn spec_capacity(self) -> nat {
        self.capacity as nat
    }

    /// Whether the queue has been closed.
    pub closed spec fn is_closed(self) -> bool {
        self.closed
    }

    /// The queue never buffers more than its capacity.
    pub closed spec fn wf(self) -> bool {
        self.items@.len() <= self.capacity
    }

    /// A fresh, open, empty queue bounded by `capacity`.
    pub fn new(capacity: usize) -> (q: Self)
        ensures
            q.wf(),
            q.pending() == Seq::<Seq<u8>>::empty(),
            q.spec_capacity() == capacity,
            !q.is_closed(),
    {
        let q = IngressQueue { items: Vec::new(), capacity, closed: false };
        proof {
            assert(q.pending() =~= Seq::<Seq<u8>>::empty());
        }
        q
    }

    /// Appends `chunk` at the tail. Rejected with `Closed` once the queue is
    /// closed, and with `Full` when the queue is at capacity; a rejected
    /// chunk is never taken, and the queue is left as it was.
    pub fn enqueue(&mut self, chunk: Vec<u8>) -> (r: Result<(), EnqueueError>)
        requires
            old(self).wf(),
        ensures
            final(self).wf(),
            final(self).spec_capacity() == old(self).spec_capacity(),
            final(self).is_closed() == old(self).is_closed(),
            old(self).is_closed() ==> r == Err::<(), EnqueueError>(EnqueueError::Closed)
                && final(self).pending() == old(self).pending(),
            !old(self).is_closed() && old(self).pending().len() == old(self).spec_capacity()
                ==> r == Err::<(), EnqueueError>(EnqueueError::Full) && final(self).pending()
                == old(self).pending(),
            !old(self).is_closed() && old(self).pending().len() < old(self).spec_capacity()
                ==> r == Ok::<(), EnqueueError>(())
                && final(self).pending() == old(self).pending().push(chunk@),
    {
        if self.closed {
            Err(EnqueueError::Closed)
        } else if self.items.len() == self.capacity {
            Err(EnqueueError::Full)
        } else {
            let ghost before = self.pending();
            let ghost c = chunk@;
            self.items.push(chunk);
            proof {
                assert(self.pending() =~= before.push(c));
            }
            Ok(())
        }
    }

    /// Takes the oldest buffered chunk. An empty queue yields `Pending` while
    /// open and `Closed` once closed; a non-empty queue yields its head even
    /// after closing, so buffered chunks can still be drained.
    pub fn dequeue(&mut self) -> (r: Dequeued)
        requires
            old(self).wf(),
        ensures
            final(self).wf(),
            final(self).spec_capacity() == old(self).spec_capacity(),
            final(self).is_closed() == old(self).is_closed(),
            old(self).pending().len() > 0 ==> match r {
                Dequeued::Chunk(c) => c@ == old(self).pending()[0] && final(self).pending()
                    == old(self).pending().drop_first(),
                _ => false,
            },
            old(self).pending().len() == 0 && !old(self).is_closed() ==> r is Pending
                && final(self).pending() == old(self).pending(),
            old(self).pending().len() == 0 && old(self).is_closed() ==> r is Closed
                && final(self).pending() == old(self).pending(),
    {
        if self.items.len() > 0 {
            let ghost before = self.pending();
            let chunk = self.items.remove(0);
            proof {
                assert(self.pending() =~= before.drop_first());
            }
            Dequeued::Chunk(chunk)
        } else if self.closed {
            Dequeued::Closed
        } else {
            Dequeued::Pending
        }
    }

    /// How many chunks are buffered right now.
    pub fn buffered_len(&self) -> (n: usize)
        ensures
            n == self.pending().len(),
    {
        self.items.len()
    }

    /// Closes the queue: every later enqueue is rejected. Buffered chunks are
    /// kept, so the forwarder can still drain them. Idempotent.
    pub fn close(&mut self)
        requires
            old(self).wf(),
        ensures
            final(self).wf(),
            final(self).spec_capacity() == old(self).spec_capacity(),
            final(self).is_closed(),
            final(self).pending() == old(self).pending(),
    {
        self.closed = true;
        proof {
            assert(self.pending() =~= old(self).pending());
        }
    }
}

/// Drains every buffered chunk into `sink`, in queue order. This is the
/// outbound forwarder's core against a sink whose sends all succeed: the sink
/// receives exactly the buffered chunks, appended in submission order, with
/// no duplication, drop or reordering.
pub fn forward_pending(q: &mut IngressQueue, sink: &mut Vec<Vec<u8>>)
    requires
        old(q).wf(),
    ensures
        final(q).wf(),
        chunks_view(final(sink)@) == chunks_view(old(sink)@) + old(q).pending(),
        final(q).pending() == Seq::<Seq<u8>>::empty(),
        final(q).spec_capacity() == old(q).spec_capacity(),
        final(q).is_closed() == old(q).is_closed(),
{
    let ghost sink0 = chunks_view(sink@);
    let ghost all = old(q).pending();
    while q.buffered_len() > 0
        invariant
            q.wf(),
            q.spec_capacity() == old(q).spec_capacity(),
            q.is_closed() == old(q).is_closed(),
            chunks_view(sink@) + q.pending() =~= sink0 + all,
        decreases q.pending().len(),
    {
        let ghost qs = q.pending();
        let ghost ss = chunks_view(sink@);
        match q.dequeue() {
            Dequeued::Chunk(c) => {
                let ghost cv = c@;
                sink.push(c);
                proof {
                    assert(chunks_view(sink@) =~= ss.push(cv));
                    assert(chunks_view(sink@) + q.pending() =~= ss + qs);
                }
            },
            _ => {},
        }
    }
    proof {
        assert(q.pending() =~= Seq::<Seq<u8>>::empty());
        assert(chunks_view(sink@) =~= chunks_view(sink@) + q.pending());
    }
}

/// The ordering law, end to end: submitting a run of chunks and then letting
/// the forwarder drain delivers to the sink exactly the chunks that were
/// buffered and then submitted, in submission order, with no duplication,
/// drop or reordering — provided the queue is open and the run fits under its
/// bound, so that no submission is rejected.
pub fn relay_chunks_in_order(q: &mut IngressQueue, chunks: Vec<Vec<u8>>, sink: &mut Vec<Vec<u8>>)
    requires
        old(q).wf(),
        !old(q).is_closed(),
        old(q).pending().len() + chunks@.len() <= old(q).spec_capacity(),
    ensures
        final(q).wf(),
        chunks_view(final(sink)@) == chunks_view(old(sink)@) + old(q).pending() + chunks_view(
            chunks@,
        ),
        final(q).pending() == Seq::<Seq<u8>>::empty(),
{
    let ghost all = chunks_view(chunks@);
    let ghost pending0 = old(q).pending();
    let mut rest = chunks;
    while rest.len() > 0
        invariant
            q.wf(),
            !q.is_closed(),
            q.spec_capacity() == old(q).spec_capacity(),
            q.pending().len() + rest@.len() <= q.spec_capacity(),
            q.pending() + chunks_view(rest@) =~= pending0 + all,
        decreases rest@.len(),
    {
        let ghost qs = q.pending();
        let ghost rs = chunks_view(rest@);
        let c = rest.remove(0);
        let ghost cv = c@;
        let accepted = q.enqueue(c);
        proof {
            assert(accepted == Ok::<(), EnqueueError>(()));
            assert(chunks_view(rest@) =~= rs.drop_first());
            assert(q.pending() =~= qs.push(cv));
            assert(q.pending() + chunks_view(rest@) =~= qs + rs);
        }
    }
    proof {
        assert(chunks_view(rest@) =~= Seq::<Seq<u8>>::empty());
        assert(q.pending() =~= pending0 + all);
    }
    forward_pending(q, sink);
}

} // verus!
