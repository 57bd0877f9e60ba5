//! The persisted log store, modelled in memory: an append-only sequence of
//! event records whose store-assigned ids are unique and strictly increasing
//! in insertion order. The writer worker is the sole caller of `insert_job`,
//! which keeps writes serialized without locking.

use vstd::prelude::*;
use crate::record::{EventRecord, WriteJob};
use crate::queue::{DrainOutcome, WriteQueue};

verus! {

/// The record the store keeps for `job` under the assigned identity `id`.
pub open spec fn record_of(job: WriteJob, id: u64) -> EventRecord {
    EventRecord {
        id: id,
        user_id: job.user_id,
        time: job.time,
        status: job.status,
        activity: job.activity,
        activity_description: job.activity_description,
    }
}

/// The records the store gains when `jobs` are inserted in order, the first
/// one under identity `first_id`, each next one under the next identity.
pub open spec fn records_of(jobs: Seq<WriteJob>, first_id: u64) -> Seq<EventRecord>
    decreases jobs.len(),
{
    if jobs.len() == 0 {
        Seq::empty()
    } else {
        seq![record_of(jobs[0], first_id)] + records_of(
            jobs.drop_first(),
            (first_id + 1) as u64,
        )
    }
}

/// Appending one more job inserts it at the back, under the identity that
/// follows all the identities handed out for `jobs`.
pub proof fn lemma_records_of_push(jobs: Seq<WriteJob>, first_id: u64, job: WriteJob)
    requires
        first_id + jobs.len() < u64::MAX,
    ensures
        records_of(jobs.push(job), first_id) == records_of(jobs, first_id).push(
            record_of(job, (first_id + jobs.len()) as u64),
        ),
    decreases jobs.len(),
{
    let pushed = jobs.push(job);
    if jobs.len() == 0 {
        assert(pushed.drop_first() =~= Seq::<WriteJob>::empty());
        assert(records_of(pushed.drop_first(), (first_id + 1) as u64) == Seq::<
            EventRecord,
        >::empty());
        assert(pushed[0] == job);
        assert(records_of(pushed, first_id) =~= records_of(jobs, first_id).push(
            record_of(job, first_id),
        ));
    } else {
        assert(pushed.drop_first() =~= jobs.drop_first().push(job));
        lemma_records_of_push(jobs.drop_first(), (first_id + 1) as u64, job);
        assert(records_of(pushed.drop_first(), (first_id + 1) as u64) == records_of(
            jobs.drop_first(),
            (first_id + 1) as u64,
        ).push(record_of(job, (first_id + jobs.len()) as u64)));
        assert(pushed[0] == jobs[0]);
        assert(records_of(pushed, first_id) =~= records_of(jobs, first_id).push(
            record_of(job, (first_id + jobs.len()) as u64),
        ));
    }
}

/// The append-only event log with its id counter. Records are immutable once
/// inserted; no update or delete path exists.
pub struct LogStore {
    records: Vec<EventRecord>,
    next_id: u64,
}

impl LogStore {
    /// The persisted records, in insertion order.
    pub closed spec fn log(&self) -> Seq<EventRecord> {
        self.records@
    }

    /// The identity the next inserted record will receive.
    pub closed spec fn next_id(&self) -> u64 {
        self.next_id
    }

    /// Well-formedness: ids are strictly increasing in insertion order and
    /// all below the counter, so no id is ever reused.
    pub open spec fn wf(&self) -> bool {
        &&& forall|i: int, j: int|
            0 <= i < j < self.log().len() ==> self.log()[i].id < self.log()[j].id
        &&& forall|i: int| 0 <= i < self.log().len() ==> (#[trigger] self.log()[i]).id
            < self.next_id()
        &&& self.next_id() >= 1
    }

    /// An empty log whose first record will receive identity 1.
    pub fn new() -> (s: LogStore)
        ensures
            s.wf(),
            s.log() == Seq::<EventRecord>::empty(),
            s.next_id() == 1,
    {
        LogStore { records: Vec::new(), next_id: 1 }
    }

    /// The persisted records, for the read path.
    pub fn records(&self) -> (r: &Vec<EventRecord>)
        ensures
            r@ == self.log(),
    {
        &self.records
    }

    /// Append `job` under the next identity and return that identity. The
    /// id counter must not be exhausted.
    pub fn insert_job(&mut self, job: WriteJob) -> (id: u64)
        requires
            old(self).wf(),
            old(self).next_id() < u64::MAX,
        ensures
            final(self).wf(),
            id == old(self).next_id(),
            final(self).next_id() == old(self).next_id() + 1,
            final(self).log() == old(self).log().push(record_of(job, old(self).next_id())),
    {
        let id = self.next_id;
        let record = EventRecord {
            id: id,
            user_id: job.user_id,
            time: job.time,
            status: job.status,
            activity: job.activity,
            activity_description: job.activity_description,
        };
        self.records.push(record);
        self.next_id = id + 1;
        proof {
            let oldlog = old(self).log();
            let newlog = self.log();
            assert(newlog == oldlog.push(record_of(job, old(self).next_id())));
            assert forall|i: int, j: int|
                0 <= i < j < newlog.len() implies newlog[i].id < newlog[j].id by {
                if j < oldlog.len() as int {
                    assert(newlog[i] == oldlog[i]);
                    assert(newlog[j] == oldlog[j]);
                } else {
                    assert(newlog[i] == oldlog[i]);
                    assert(newlog[j].id == old(self).next_id());
                }
            }
            assert forall|i: int| 0 <= i < newlog.len() implies (#[trigger] newlog[i]).id
                < self.next_id() by {
                if i < oldlog.len() as int {
                    assert(newlog[i] == oldlog[i]);
                }
            }
        }
        id
    }
}

/// The writer worker's drain loop against the in-memory store: repeatedly
/// take the oldest pending record and insert it, until the queue has nothing
/// more to give. Every pending record is inserted, in enqueue order, under
/// consecutive identities; none is retried and none is written twice.
pub fn writer_task(q: &mut WriteQueue, store: &mut LogStore)
    requires
        old(q).wf(),
        old(store).wf(),
        old(store).next_id() + old(q).pending().len() < u64::MAX,
    ensures
        final(q).wf(),
        final(store).wf(),
        final(q).pending() == Seq::<WriteJob>::empty(),
        final(q).capacity() == old(q).capacity(),
        final(q).is_closed() == old(q).is_closed(),
        final(store).log() == old(store).log() + records_of(
            old(q).pending(),
            old(store).next_id(),
        ),
        final(store).next_id() == old(store).next_id() + old(q).pending().len(),
{
    let ghost all = old(q).pending();
    let ghost first_id = old(store).next_id();
    let ghost mut k: int = 0;
    loop
        invariant
            q.wf(),
            store.wf(),
            all == old(q).pending(),
            first_id == old(store).next_id(),
            0 <= k <= all.len(),
            q.pending() == all.subrange(k, all.len() as int),
            q.capacity() == old(q).capacity(),
            q.is_closed() == old(q).is_closed(),
            store.next_id() == first_id + k,
            first_id + all.len() < u64::MAX,
            store.log() == old(store).log() + records_of(all.subrange(0, k), first_id),
        decreases all.len() - k,
    {
        match q.drain_one() {
            DrainOutcome::Item(job) => {
                proof {
                    assert(all.subrange(k, all.len() as int)[0] == all[k]);
                    assert(all.subrange(k, all.len() as int).drop_first() =~= all.subrange(
                        k + 1,
                        all.len() as int,
                    ));
                    assert(all.subrange(0, k).push(all[k]) =~= all.subrange(0, k + 1));
                    lemma_records_of_push(all.subrange(0, k), first_id, all[k]);
                }
                store.insert_job(job);
                proof {
                    k = k + 1;
                }
            },
            DrainOutcome::Empty => {
                proof {
                    assert(q.pending().len() == 0);
                    assert(k == all.len());
                    assert(all.subrange(0, k) =~= all);
                }
                return ;
            },
            DrainOutcome::Finished => {
                proof {
                    assert(q.pending().len() == 0);
                    assert(k == all.len());
                    assert(all.subrange(0, k) =~= all);
                }
                return ;
            },
        }
    }
}

} // verus!
