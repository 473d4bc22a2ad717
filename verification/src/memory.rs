use vstd::prelude::*;

use crate::epoch::FinalizedEpoch;
use crate::transaction::Transaction;

verus! {

/// What one height slot of the ledger holds.
#[derive(Clone, Debug)]
pub enum Record {
    Epoch(FinalizedEpoch),
    TxBatch(Vec<Transaction>),
}

/// The byte payloads of a transaction batch.
pub open spec fn spec_tx_views(ts: Seq<Transaction>) -> Seq<Seq<u8>> {
    ts.map(|i: int, t: Transaction| t.bytes@)
}

/// An in-memory data-availability backend: a height-indexed ledger of
/// records, and a bounded, lossy fan-out of height notifications with
/// drop-oldest overflow. Heights are assigned by the ledger, starting at 1.
pub struct InMemoryDaLayer {
    pub records: Vec<Record>,
    pub cursors: Vec<usize>,
    pub capacity: usize,
}

/// The epoch recorded at `height`, if any. Absence is not an error.
pub open spec fn spec_epoch_at(s: InMemoryDaLayer, height: u64) -> Option<FinalizedEpoch> {
    if 1 <= height && height <= s.records@.len() {
        match s.records@[height - 1] {
            Record::Epoch(e) => Some(e),
            Record::TxBatch(_) => None,
        }
    } else {
        None
    }
}

/// The transaction batch recorded at `height`; empty if the height holds no
/// batch.
pub open spec fn spec_transactions_at(s: InMemoryDaLayer, height: u64) -> Seq<Transaction> {
    if 1 <= height && height <= s.records@.len() {
        match s.records@[height - 1] {
            Record::TxBatch(ts) => ts@,
            Record::Epoch(_) => Seq::empty(),
        }
    } else {
        Seq::empty()
    }
}

/// One submission: the record is appended, its height is the new ledger
/// length, and subscriptions are untouched.
pub open spec fn spec_submit(
    pre: InMemoryDaLayer,
    rec: Record,
    post: InMemoryDaLayer,
    h: u64,
) -> bool {
    &&& post.records@ == pre.records@.push(rec)
    &&& post.cursors@ == pre.cursors@
    &&& post.capacity == pre.capacity
    &&& h == pre.records@.len() + 1
}

/// One subscription: a fresh cursor positioned at the current end of the
/// ledger, so only later submissions are delivered to it.
pub open spec fn spec_subscribe(pre: InMemoryDaLayer, post: InMemoryDaLayer, id: usize) -> bool {
    &&& post.records@ == pre.records@
    &&& post.capacity == pre.capacity
    &&& post.cursors@ == pre.cursors@.push(pre.records@.len() as usize)
    &&& id == pre.cursors@.len()
}

/// One poll of a subscription: `None` when the subscriber is caught up;
/// otherwise the next undelivered height, where a subscriber more than
/// `capacity` behind is advanced to the oldest retained notification
/// (drop-oldest overflow).
pub open spec fn spec_poll(
    pre: InMemoryDaLayer,
    id: int,
    post: InMemoryDaLayer,
    r: Option<u64>,
) -> bool {
    let len = pre.records@.len() as int;
    let c = pre.cursors@[id] as int;
    let start = if len - c > pre.capacity {
        len - pre.capacity
    } else {
        c
    };
    &&& post.records@ == pre.records@
    &&& post.capacity == pre.capacity
    &&& post.cursors@.len() == pre.cursors@.len()
    &&& forall|j: int|
        0 <= j < pre.cursors@.len() && j != id ==> #[trigger] post.cursors@[j] == pre.cursors@[j]
    &&& if c >= len {
        &&& r is None
        &&& post.cursors@[id] == pre.cursors@[id]
    } else {
        &&& r matches Some(h) && h == start + 1
        &&& post.cursors@[id] == start + 1
    }
}

impl InMemoryDaLayer {
    /// Every subscription cursor lies within the ledger, and the
    /// notification buffer holds at least one entry.
    pub open spec fn wf(self) -> bool {
        &&& self.capacity >= 1
        &&& forall|i: int|
            0 <= i < self.cursors@.len() ==> #[trigger] self.cursors@[i] <= self.records@.len()
    }

    /// A fresh backend with an empty ledger and no subscribers.
    pub fn new(capacity: usize) -> (r: InMemoryDaLayer)
        requires
            capacity >= 1,
        ensures
            r.wf(),
            r.records@.len() == 0,
            r.cursors@.len() == 0,
            r.capacity == capacity,
    {
        InMemoryDaLayer { records: Vec::new(), cursors: Vec::new(), capacity }
    }

    /// The highest height currently known to the backend.
    pub fn get_latest_height(&self) -> (r: u64)
        ensures
            r == self.records@.len(),
    {
        self.records.len() as u64
    }

    /// The height a fresh consumer should begin syncing from: the current
    /// end of the ledger.
    pub fn initialize_sync_target(&self) -> (r: u64)
        ensures
            r == self.records@.len(),
    {
        self.records.len() as u64
    }

    /// The epoch posted at `height`, or `None` if nothing (or a transaction
    /// batch) sits there; absence is not an error.
    pub fn get_finalized_epoch(&self, height: u64) -> (r: Option<FinalizedEpoch>)
        ensures
            match spec_epoch_at(*self, height) {
                Some(e) => r matches Some(x) && x@ == e@,
                None => r is None,
            },
    {
        if height == 0 || height > self.records.len() as u64 {
            return None;
        }
        let idx = (height - 1) as usize;
        match &self.records[idx] {
            Record::Epoch(e) => Some(e.duplicate()),
            Record::TxBatch(_) => None,
        }
    }

    /// Publish an epoch; the returned height is where it was recorded.
    pub fn submit_finalized_epoch(&mut self, epoch: FinalizedEpoch) -> (r: u64)
        requires
            old(self).wf(),
        ensures
            final(self).wf(),
            spec_submit(*old(self), Record::Epoch(epoch), *final(self), r),
    {
        self.records.push(Record::Epoch(epoch));
        self.records.len() as u64
    }

    /// The transactions recorded at `height`, in order; empty if none.
    pub fn get_transactions(&self, height: u64) -> (r: Vec<Transaction>)
        ensures
            spec_tx_views(r@) == spec_tx_views(spec_transactions_at(*self, height)),
    {
        if height == 0 || height > self.records.len() as u64 {
            let r: Vec<Transaction> = Vec::new();
            proof {
                assert(spec_tx_views(r@) =~= spec_tx_views(spec_transactions_at(*self, height)));
            }
            return r;
        }
        let idx = (height - 1) as usize;
        match &self.records[idx] {
            Record::TxBatch(ts) => {
                let mut out: Vec<Transaction> = Vec::new();
                let mut i: usize = 0;
                while i < ts.len()
                    invariant
                        i <= ts@.len(),
                        out@.len() == i,
                        forall|j: int| 0 <= j < i ==> #[trigger] out@[j].bytes@ == ts@[j].bytes@,
                    decreases ts@.len() - i,
                {
                    out.push(Transaction { bytes: crate::encoding::copy_bytes(&ts[i].bytes) });
                    i = i + 1;
                }
                proof {
                    assert(spec_tx_views(out@) =~= spec_tx_views(ts@));
                }
                out
            },
            Record::Epoch(_) => {
                let r: Vec<Transaction> = Vec::new();
                proof {
                    assert(spec_tx_views(r@) =~= spec_tx_views(
                        spec_transactions_at(*self, height),
                    ));
                }
                r
            },
        }
    }

    /// Publish a batch of transactions; the returned height is where it was
    /// recorded.
    pub fn submit_transactions(&mut self, transactions: Vec<Transaction>) -> (r: u64)
        requires
            old(self).wf(),
        ensures
            final(self).wf(),
            spec_submit(*old(self), Record::TxBatch(transactions), *final(self), r),
    {
        self.records.push(Record::TxBatch(transactions));
        self.records.len() as u64
    }

    /// Open a fresh notification subscription; it will observe only heights
    /// submitted after this call.
    pub fn subscribe_to_heights(&mut self) -> (id: usize)
        requires
            old(self).wf(),
        ensures
            final(self).wf(),
            spec_subscribe(*old(self), *final(self), id),
            final(self).cursors@.len() == id + 1,
    {
        let id = self.cursors.len();
        let pos = self.records.len();
        self.cursors.push(pos);
        id
    }

    /// Deliver the next height to subscription `id`, or `None` when it is
    /// caught up. A subscriber that fell more than `capacity` behind skips
    /// to the oldest retained notification; delivered heights are strictly
    /// increasing per subscriber.
    pub fn next_height(&mut self, id: usize) -> (r: Option<u64>)
        requires
            old(self).wf(),
            id < old(self).cursors@.len(),
        ensures
            final(self).wf(),
            spec_poll(*old(self), id as int, *final(self), r),
    {
        let len = self.records.len();
        let c = self.cursors[id];
        if c >= len {
            return None;
        }
        let start = if len - c > self.capacity {
            len - self.capacity
        } else {
            c
        };
        self.cursors.set(id, start + 1);
        Some((start as u64) + 1)
    }
}

/// Submissions through the same backend get distinct heights: the second of
/// two consecutive submissions is recorded one past the first.
pub proof fn lemma_submissions_get_distinct_heights(
    b0: InMemoryDaLayer,
    r1: Record,
    b1: InMemoryDaLayer,
    h1: u64,
    r2: Record,
    b2: InMemoryDaLayer,
    h2: u64,
)
    requires
        spec_submit(b0, r1, b1, h1),
        spec_submit(b1, r2, b2, h2),
    ensures
        h1 != h2,
        h2 == h1 + 1,
{
}

/// A subscriber created after `n` submissions is never delivered one of
/// those `n` heights: every delivery exceeds the cursor, and the cursor
/// starts at `n` and never decreases, across any interleaving of polls.
pub proof fn lemma_subscriber_skips_history(
    pre: InMemoryDaLayer,
    id: int,
    post: InMemoryDaLayer,
    r: Option<u64>,
    n: int,
)
    requires
        pre.wf(),
        0 <= id < pre.cursors@.len(),
        spec_poll(pre, id, post, r),
        pre.cursors@[id] >= n,
    ensures
        r matches Some(h) ==> h > n,
        post.cursors@[id] >= n,
        r matches Some(h) ==> post.cursors@[id] == h,
{
}

/// Deliveries to one subscriber carry strictly increasing heights.
pub proof fn lemma_deliveries_strictly_increase(
    s0: InMemoryDaLayer,
    id: int,
    s1: InMemoryDaLayer,
    h1: u64,
    s2: InMemoryDaLayer,
    h2: u64,
)
    requires
        s0.wf(),
        s1.wf(),
        0 <= id < s0.cursors@.len(),
        spec_poll(s0, id, s1, Some(h1)),
        spec_poll(s1, id, s2, Some(h2)),
    ensures
        h2 > h1,
{
}

} // verus!
