//! The ingestion queue: a bounded, ordered hand-off of event records from
//! bursty producers to the single writer. A full queue pushes back on the
//! producer instead of dropping; a closed queue refuses new records so a
//! producer learns the pipeline is shut down.

use vstd::prelude::*;
use crate::record::WriteJob;

verus! {

/// What `submit` reports. A record that was not accepted is handed back
/// unchanged, so the producer can retry (backpressure) or give up (shutdown).
pub enum SubmitOutcome {
    /// The record was enqueued at the back.
    Accepted,
    /// The queue is at capacity; the record comes back unchanged and the
    /// producer should wait for the writer to drain before retrying.
    Full(WriteJob),
    /// The consumer side has been closed; the record comes back unchanged
    /// and will never be accepted.
    Closed(WriteJob),
}

/// What `drain_one` reports to the single consumer.
pub enum DrainOutcome {
    /// The record that has waited longest (FIFO order).
    Item(WriteJob),
    /// Nothing pending, but producers may still submit; the consumer
    /// should wait and ask again.
    Empty,
    /// Nothing pending and the queue is closed: no record will ever come.
    Finished,
}

/// A bounded FIFO queue of pending write jobs. Producers append through
/// `submit`; the single writer removes from the front through `drain_one`.
pub struct WriteQueue {
    buf: Vec<WriteJob>,
    capacity: usize,
    closed: bool,
}

impl WriteQueue {
    /// The records accepted and not yet drained, oldest first.
    pub closed spec fn pending(&self) -> Seq<WriteJob> {
        self.buf@
    }

    /// The fixed bound on how many records may wait at once.
    pub closed spec fn capacity(&self) -> usize {
        self.capacity
    }

    /// Whether the consumer side has been closed for good.
    pub closed spec fn is_closed(&self) -> bool {
        self.closed
    }

    /// Well-formedness: the pending records never exceed the bound, and the
    /// bound is positive.
    pub open spec fn wf(&self) -> bool {
        self.pending().len() <= self.capacity() && self.capacity() >= 1
    }

    /// Enqueue `job` at the back, unless the queue is full or closed; in
    /// either of those cases the queue is unchanged and the job comes back
    /// inside the outcome, never dropped or reordered.
    pub fn submit(&mut self, job: WriteJob) -> (r: SubmitOutcome)
        requires
            old(self).wf(),
        ensures
            final(self).wf(),
            final(self).capacity() == old(self).capacity(),
            final(self).is_closed() == old(self).is_closed(),
            old(self).is_closed() ==> {
                &&& r == SubmitOutcome::Closed(job)
                &&& final(self).pending() == old(self).pending()
            },
            !old(self).is_closed() && old(self).pending().len() == old(self).capacity() ==> {
                &&& r == SubmitOutcome::Full(job)
                &&& final(self).pending() == old(self).pending()
            },
            !old(self).is_closed() && old(self).pending().len() < old(self).capacity() ==> {
                &&& r == SubmitOutcome::Accepted
                &&& final(self).pending() == old(self).pending().push(job)
            },
    {
        if self.closed {
            SubmitOutcome::Closed(job)
        } else if self.buf.len() == self.capacity {
            SubmitOutcome::Full(job)
        } else {
            self.buf.push(job);
            SubmitOutcome::Accepted
        }
    }

    /// Remove and return the record that has waited longest. An empty queue
    /// yields `Empty` while producers may still come, and `Finished` once
    /// the queue has been closed.
    pub fn drain_one(&mut self) -> (r: DrainOutcome)
        requires
            old(self).wf(),
        ensures
            final(self).wf(),
            final(self).capacity() == old(self).capacity(),
            final(self).is_closed() == old(self).is_closed(),
            old(self).pending().len() > 0 ==> {
                &&& r == DrainOutcome::Item(old(self).pending()[0])
                &&& final(self).pending() == old(self).pending().drop_first()
            },
            old(self).pending().len() == 0 ==> {
                &&& final(self).pending() == old(self).pending()
                &&& r == if old(self).is_closed() { DrainOutcome::Finished } else {
                    DrainOutcome::Empty
                }
            },
    {
        if self.buf.len() > 0 {
            let job = self.buf.remove(0);
            assert(self.buf@ == old(self).pending().drop_first());
            DrainOutcome::Item(job)
        } else if self.closed {
            DrainOutcome::Finished
        } else {
            DrainOutcome::Empty
        }
    }

    /// Close the consumer side: pending records stay drainable, but no new
    /// record will ever be accepted.
    pub fn close(&mut self)
        requires
            old(self).wf(),
        ensures
            final(self).wf(),
            final(self).capacity() == old(self).capacity(),
            final(self).is_closed(),
            final(self).pending() == old(self).pending(),
    {
        self.closed = true;
    }

    /// How many records are pending right now.
    pub fn len(&self) -> (n: usize)
        ensures
            n == self.pending().len(),
    {
        self.buf.len()
    }
}

/// Make the bounded hand-off queue of the pipeline. The bound must be
/// positive: a queue that can hold nothing could never accept a record.
pub fn new_write_queue(buffer: usize) -> (q: WriteQueue)
    requires
        buffer >= 1,
    ensures
        q.wf(),
        q.pending() == Seq::<WriteJob>::empty(),
        q.capacity() == buffer,
        !q.is_closed(),
{
    WriteQueue { buf: Vec::new(), capacity: buffer, closed: false }
}

/// The pending sequence after a run of accepted `submit` calls, one per job,
/// in call order: each call appends its job at the back, exactly as the
/// contract of `submit` states.
pub open spec fn submit_all(pending: Seq<WriteJob>, jobs: Seq<WriteJob>) -> Seq<WriteJob>
    decreases jobs.len(),
{
    if jobs.len() == 0 {
        pending
    } else {
        submit_all(pending.push(jobs[0]), jobs.drop_first())
    }
}

/// FIFO law: a run of accepted submits leaves the queue holding exactly the
/// earlier records followed by the submitted ones, in submission order; and
/// since `drain_one` always yields the front, the consumer observes the
/// submitted records in the same relative order they were enqueued.
pub proof fn lemma_fifo(pending: Seq<WriteJob>, jobs: Seq<WriteJob>)
    ensures
        submit_all(pending, jobs) == pending + jobs,
        forall|k: int|
            0 <= k < jobs.len() ==> submit_all(pending, jobs)[pending.len() + k] == jobs[k],
    decreases jobs.len(),
{
    if jobs.len() == 0 {
        assert(submit_all(pending, jobs) =~= pending + jobs);
    } else {
        lemma_fifo(pending.push(jobs[0]), jobs.drop_first());
        assert(pending.push(jobs[0]) + jobs.drop_first() =~= pending + jobs);
    }
}

/// Backpressure law: a full queue refuses a record but keeps it with the
/// producer, and as soon as the writer drains one entry there is room again,
/// so the retried `submit` is accepted and appends that same record.
pub proof fn lemma_backpressure(q: WriteQueue)
    requires
        q.wf(),
        q.pending().len() == q.capacity(),
    ensures
        q.pending().len() > 0,
        q.pending().drop_first().len() < q.capacity(),
{
}

} // verus!
