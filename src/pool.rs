//! The shared work queue of the download workers.
//!
//! Each backlog address is a work item tagged with its position in the backlog. Workers
//! take items from the front; a worker that fails on an item puts it back at the front
//! and stops. The pool records, for each position, whether its item is queued, taken by a
//! worker, or delivered. Callers hold the pool under one lock, so each operation below is
//! one critical section.
use vstd::prelude::*;
use std::collections::VecDeque;
use crate::error::Error;
use crate::text::{decimal, push_decimal};

verus! {

/// Where the item at one backlog position stands.
#[derive(Clone, Copy, Debug, PartialEq, Eq, Structural)]
pub enum ItemState {
    Queued,
    Taken,
    Delivered,
}

/// The backlog positions among `0..n` whose items are in state `s`.
pub open spec fn positions_in(states: Seq<ItemState>, s: ItemState) -> Set<int> {
    Set::new(|k: int| 0 <= k < states.len() && states[k] == s)
}

/// The queue `q` holds each position that `st` marks queued exactly once, and nothing else.
pub open spec fn queue_wf(q: Seq<(usize, String)>, st: Seq<ItemState>) -> bool {
    &&& forall|i: int| 0 <= i < q.len() ==> (#[trigger] q[i]).0 < st.len() && st[q[i].0 as int] == ItemState::Queued
    &&& forall|i: int, j: int| 0 <= i < j < q.len() ==> (#[trigger] q[i]).0 != (#[trigger] q[j]).0
    &&& forall|k: int| 0 <= k < st.len() && #[trigger] st[k] == ItemState::Queued ==> exists|i: int|
        0 <= i < q.len() && (#[trigger] q[i]).0 == k
}

/// Taking the front item keeps the queue well formed.
pub proof fn lemma_take_keeps_wf(q: Seq<(usize, String)>, st: Seq<ItemState>)
    requires
        queue_wf(q, st),
        q.len() > 0,
    ensures
        queue_wf(q.drop_first(), st.update(q[0].0 as int, ItemState::Taken)),
{
    let k = q[0].0 as int;
    let q2 = q.drop_first();
    let st2 = st.update(k, ItemState::Taken);
    assert forall|i: int| 0 <= i < q2.len() implies (#[trigger] q2[i]).0 < st2.len() && st2[q2[i].0 as int] == ItemState::Queued by {
        assert(q2[i] == q[i + 1]);
        assert(q[0].0 != q[i + 1].0);
    }
    assert forall|i: int, j: int| 0 <= i < j < q2.len() implies (#[trigger] q2[i]).0 != (#[trigger] q2[j]).0 by {
        assert(q2[i] == q[i + 1]);
        assert(q2[j] == q[j + 1]);
    }
    assert forall|m: int| 0 <= m < st2.len() && #[trigger] st2[m] == ItemState::Queued implies exists|i: int|
        0 <= i < q2.len() && (#[trigger] q2[i]).0 == m by {
        assert(m != k);
        assert(st[m] == ItemState::Queued);
        let i = choose|i: int| 0 <= i < q.len() && (#[trigger] q[i]).0 == m;
        assert(i != 0);
        assert(q2[i - 1] == q[i]);
    }
}

/// Changing the state of a position that is not queued to another state than queued keeps
/// the queue well formed.
pub proof fn lemma_mark_keeps_wf(q: Seq<(usize, String)>, st: Seq<ItemState>, k: int, s: ItemState)
    requires
        queue_wf(q, st),
        0 <= k < st.len(),
        st[k] != ItemState::Queued,
        s != ItemState::Queued,
    ensures
        queue_wf(q, st.update(k, s)),
{
    let st2 = st.update(k, s);
    assert forall|i: int| 0 <= i < q.len() implies (#[trigger] q[i]).0 < st2.len() && st2[q[i].0 as int] == ItemState::Queued by {
        assert(st[q[i].0 as int] == ItemState::Queued);
    }
    assert forall|m: int| 0 <= m < st2.len() && #[trigger] st2[m] == ItemState::Queued implies exists|i: int|
        0 <= i < q.len() && (#[trigger] q[i]).0 == m by {
        assert(st[m] == ItemState::Queued);
    }
}

/// Putting a taken item back at the front keeps the queue well formed.
pub proof fn lemma_give_back_keeps_wf(q: Seq<(usize, String)>, st: Seq<ItemState>, item: (usize, String))
    requires
        queue_wf(q, st),
        item.0 < st.len(),
        st[item.0 as int] == ItemState::Taken,
    ensures
        queue_wf(seq![item] + q, st.update(item.0 as int, ItemState::Queued)),
{
    let k = item.0 as int;
    let q2 = seq![item] + q;
    let st2 = st.update(k, ItemState::Queued);
    assert forall|i: int| 0 <= i < q2.len() implies (#[trigger] q2[i]).0 < st2.len() && st2[q2[i].0 as int] == ItemState::Queued by {
        if i > 0 {
            assert(q2[i] == q[i - 1]);
            assert(st[q[i - 1].0 as int] == ItemState::Queued);
        }
    }
    assert forall|i: int, j: int| 0 <= i < j < q2.len() implies (#[trigger] q2[i]).0 != (#[trigger] q2[j]).0 by {
        assert(q2[j] == q[j - 1]);
        assert(st[q[j - 1].0 as int] == ItemState::Queued);
        if i > 0 {
            assert(q2[i] == q[i - 1]);
        }
    }
    assert forall|m: int| 0 <= m < st2.len() && #[trigger] st2[m] == ItemState::Queued implies exists|i: int|
        0 <= i < q2.len() && (#[trigger] q2[i]).0 == m by {
        if m == k {
            assert(q2[0].0 == m);
        } else {
            assert(st[m] == ItemState::Queued);
            let i = choose|i: int| 0 <= i < q.len() && (#[trigger] q[i]).0 == m;
            assert(q2[i + 1] == q[i]);
        }
    }
}

/// One operation on the shared pool, as a worker performs it.
pub enum PoolOp {
    /// Take the front item.
    Take,
    /// Mark the taken item at this position delivered.
    Complete(usize),
    /// Put this taken item back at the front.
    GiveBack((usize, String)),
}

/// The queue and states after one operation.
pub open spec fn pool_step(q: Seq<(usize, String)>, st: Seq<ItemState>, op: PoolOp) -> (Seq<(usize, String)>, Seq<ItemState>) {
    match op {
        PoolOp::Take => if q.len() == 0 {
            (q, st)
        } else {
            (q.drop_first(), st.update(q[0].0 as int, ItemState::Taken))
        },
        PoolOp::Complete(k) => if k < st.len() && st[k as int] == ItemState::Taken {
            (q, st.update(k as int, ItemState::Delivered))
        } else {
            (q, st)
        },
        PoolOp::GiveBack(item) => if item.0 < st.len() && st[item.0 as int] == ItemState::Taken {
            (seq![item] + q, st.update(item.0 as int, ItemState::Queued))
        } else {
            (q, st)
        },
    }
}

/// The queue and states after a sequence of operations, by any workers in any order.
pub open spec fn pool_run(q: Seq<(usize, String)>, st: Seq<ItemState>, ops: Seq<PoolOp>) -> (Seq<(usize, String)>, Seq<ItemState>)
    decreases ops.len(),
{
    if ops.len() == 0 {
        (q, st)
    } else {
        let r = pool_step(q, st, ops[0]);
        pool_run(r.0, r.1, ops.drop_first())
    }
}

/// The work queue and the state of every item.
#[derive(Debug)]
pub struct Pool {
    pub queue: VecDeque<(usize, String)>,
    pub states: Vec<ItemState>,
}

impl Pool {
    /// The queue holds each queued position exactly once, and nothing else.
    pub open spec fn wf(&self) -> bool {
        queue_wf(self.queue@, self.states@)
    }

    /// A pool whose queue holds every address of `urls`, in order, tagged with its position.
    pub fn new(urls: Vec<String>) -> (r: Pool)
        ensures
            r.wf(),
            r.queue@.len() == urls@.len(),
            forall|i: int| 0 <= i < urls@.len() ==> (#[trigger] r.queue@[i]).0 == i && r.queue@[i].1 == urls@[i],
            r.states@ == Seq::new(urls@.len(), |_k: int| ItemState::Queued),
    {
        let mut queue: VecDeque<(usize, String)> = VecDeque::new();
        let mut states: Vec<ItemState> = Vec::new();
        let mut i: usize = 0;
        let n = urls.len();
        while i < n
            invariant
                n == urls@.len(),
                i <= n,
                queue@.len() == i,
                states@.len() == i,
                forall|j: int| 0 <= j < i ==> (#[trigger] queue@[j]).0 == j && queue@[j].1 == urls@[j],
                forall|j: int| 0 <= j < i ==> states@[j] == ItemState::Queued,
            decreases n - i,
        {
            let ghost before = queue@;
            let url = urls[i].clone();
            assert(url == urls@[i as int]);
            queue.push_back((i, url));
            assert(queue@ == before.push((i, url)));
            assert(queue@[i as int] == (i, url));
            states.push(ItemState::Queued);
            assert forall|j: int| 0 <= j < i + 1 implies (#[trigger] queue@[j]).0 == j && queue@[j].1 == urls@[j] by {
                if j < i {
                    assert(queue@[j] == before[j]);
                }
            }
            i = i + 1;
        }
        let r = Pool { queue, states };
        assert(r.states@ =~= Seq::new(urls@.len(), |_k: int| ItemState::Queued));
        assert forall|k: int| 0 <= k < r.states@.len() && r.states@[k] == ItemState::Queued implies exists|i: int|
            0 <= i < r.queue@.len() && r.queue@[i].0 == k by {
            assert(r.queue@[k].0 == k);
            assert(0 <= k < r.queue@.len());
        }
        r
    }

    /// Takes the item at the front of the queue, if any, and marks it taken.
    pub fn take(&mut self) -> (r: Option<(usize, String)>)
        requires
            old(self).wf(),
        ensures
            final(self).wf(),
            (final(self).queue@, final(self).states@) == pool_step(old(self).queue@, old(self).states@, PoolOp::Take),
            match r {
                Some(item) => {
                    &&& old(self).queue@.len() > 0
                    &&& item == old(self).queue@[0]
                    &&& final(self).queue@ == old(self).queue@.drop_first()
                    &&& final(self).states@ == old(self).states@.update(item.0 as int, ItemState::Taken)
                },
                None => {
                    &&& old(self).queue@.len() == 0
                    &&& final(self).queue@ == old(self).queue@
                    &&& final(self).states@ == old(self).states@
                },
            },
    {
        let ghost q = self.queue@;
        let ghost st = self.states@;
        match self.queue.pop_front() {
            Some(item) => {
                assert(q[0] == item);
                let k = item.0;
                self.states.set(k, ItemState::Taken);
                proof {
                    assert(self.queue@ =~= q.drop_first());
                    lemma_take_keeps_wf(q, st);
                }
                Some(item)
            },
            None => None,
        }
    }

    /// Marks the taken item at `index` delivered; does nothing, and answers `false`, where
    /// that item is not taken.
    pub fn complete(&mut self, index: usize) -> (r: bool)
        requires
            old(self).wf(),
        ensures
            final(self).wf(),
            (final(self).queue@, final(self).states@) == pool_step(old(self).queue@, old(self).states@, PoolOp::Complete(index)),
            r == (index < old(self).states@.len() && old(self).states@[index as int] == ItemState::Taken),
            final(self).queue@ == old(self).queue@,
            final(self).states@ == (if r { old(self).states@.update(index as int, ItemState::Delivered) } else { old(self).states@ }),
    {
        if index < self.states.len() && self.states[index] == ItemState::Taken {
            let ghost st = self.states@;
            self.states.set(index, ItemState::Delivered);
            proof {
                lemma_mark_keeps_wf(self.queue@, st, index as int, ItemState::Delivered);
            }
            true
        } else {
            false
        }
    }

    /// Puts the taken item back at the front of the queue; does nothing, and answers
    /// `false`, where that item is not taken.
    pub fn give_back(&mut self, item: (usize, String)) -> (r: bool)
        requires
            old(self).wf(),
        ensures
            final(self).wf(),
            (final(self).queue@, final(self).states@) == pool_step(old(self).queue@, old(self).states@, PoolOp::GiveBack(item)),
            r == (item.0 < old(self).states@.len() && old(self).states@[item.0 as int] == ItemState::Taken),
            final(self).queue@ == (if r { seq![item] + old(self).queue@ } else { old(self).queue@ }),
            final(self).states@ == (if r { old(self).states@.update(item.0 as int, ItemState::Queued) } else { old(self).states@ }),
    {
        let k = item.0;
        if k < self.states.len() && self.states[k] == ItemState::Taken {
            let ghost st = self.states@;
            let ghost q = self.queue@;
            self.states.set(k, ItemState::Queued);
            self.queue.push_front(item);
            proof {
                lemma_give_back_keeps_wf(q, st, item);
            }
            true
        } else {
            false
        }
    }

    /// The number of items still queued.
    pub fn len(&self) -> (r: usize)
        ensures
            r == self.queue@.len(),
    {
        self.queue.len()
    }

    /// Whether the queue is empty.
    pub fn is_empty(&self) -> (r: bool)
        ensures
            r == (self.queue@.len() == 0),
    {
        self.queue.len() == 0
    }

    /// The outcome of a run once every worker has stopped: success where the queue has
    /// drained, otherwise a fatal error that gives the number of items left.
    pub fn outcome(&self) -> (r: Result<(), Error>)
        ensures
            r is Ok <==> self.queue@.len() == 0,
            r matches Err(e) ==> e.fatal && e.error_type == crate::error::ErrorType::Solver
                && e.message@ == decimal(self.queue@.len() as nat) + " URLs were not downloaded"@,
    {
        let n = self.queue.len();
        if n == 0 {
            Ok(())
        } else {
            let mut message = String::new();
            push_decimal(&mut message, n as u64);
            message.append(" URLs were not downloaded");
            Err(Error { error_type: crate::error::ErrorType::Solver, fatal: true, message })
        }
    }
}

/// The backlog positions held by the queue, in queue order.
pub open spec fn queued_positions(q: Seq<(usize, String)>) -> Seq<int> {
    q.map_values(|x: (usize, String)| x.0 as int)
}

/// The queue of a well-formed pool with no item taken holds exactly the undelivered items.
pub proof fn lemma_queue_counts_undelivered(q: Seq<(usize, String)>, st: Seq<ItemState>)
    requires
        queue_wf(q, st),
        forall|k: int| 0 <= k < st.len() ==> st[k] != ItemState::Taken,
    ensures
        q.len() == positions_in(st, ItemState::Queued).len(),
        positions_in(st, ItemState::Queued) == Set::new(|k: int| 0 <= k < st.len() && st[k] != ItemState::Delivered),
        (q.len() == 0) <==> (forall|k: int| 0 <= k < st.len() ==> st[k] == ItemState::Delivered),
{
    let idx = queued_positions(q);
    assert(idx.no_duplicates()) by {
        assert forall|i: int, j: int| 0 <= i < idx.len() && 0 <= j < idx.len() && i != j implies idx[i] != idx[j] by {
            if i < j {
                assert(q[i].0 != q[j].0);
            } else {
                assert(q[j].0 != q[i].0);
            }
        }
    }
    idx.unique_seq_to_set();
    let queued = positions_in(st, ItemState::Queued);
    assert(idx.to_set() =~= queued) by {
        assert forall|k: int| idx.to_set().contains(k) implies queued.contains(k) by {
            let i = choose|i: int| 0 <= i < idx.len() && idx[i] == k;
            assert(q[i].0 == k);
        }
        assert forall|k: int| queued.contains(k) implies idx.to_set().contains(k) by {
            let i = choose|i: int| 0 <= i < q.len() && (#[trigger] q[i]).0 == k;
            assert(idx[i] == k);
        }
    }
    assert(queued =~= Set::new(|k: int| 0 <= k < st.len() && st[k] != ItemState::Delivered)) by {
        assert forall|k: int| 0 <= k < st.len() implies (st[k] == ItemState::Queued <==> st[k] != ItemState::Delivered) by {
            assert(st[k] != ItemState::Taken);
        }
    }
    if q.len() == 0 {
        assert forall|k: int| 0 <= k < st.len() implies st[k] == ItemState::Delivered by {
            assert(st[k] != ItemState::Taken);
            if st[k] == ItemState::Queued {
                let i = choose|i: int| 0 <= i < q.len() && (#[trigger] q[i]).0 == k;
            }
        }
    }
    if q.len() > 0 {
        assert(q[0].0 < st.len());
        assert(st[q[0].0 as int] == ItemState::Queued);
    }
}

/// Once every worker has stopped, so that no item is taken, the queue holds exactly the
/// items that were not delivered: the number the run reports is the number of items left
/// undelivered, and the queue is empty exactly when every item was delivered.
pub proof fn lemma_report_is_honest(p: Pool)
    requires
        p.wf(),
        forall|k: int| 0 <= k < p.states@.len() ==> p.states@[k] != ItemState::Taken,
    ensures
        p.queue@.len() == positions_in(p.states@, ItemState::Queued).len(),
        positions_in(p.states@, ItemState::Queued) == Set::new(|k: int| 0 <= k < p.states@.len() && p.states@[k] != ItemState::Delivered),
        (p.queue@.len() == 0) <==> (forall|k: int| 0 <= k < p.states@.len() ==> p.states@[k] == ItemState::Delivered),
{
    lemma_queue_counts_undelivered(p.queue@, p.states@);
}

impl Pool {
    /// The outcome of a run once its `workers` have stopped, where `failure` is the last
    /// error a worker stopped on. A drained queue is a success. Otherwise a lone worker's
    /// own error is returned, so that its kind reaches the caller; with several workers,
    /// or with no error given, the error counting the items left is returned.
    pub fn report(&self, workers: usize, failure: Option<Error>) -> (r: Result<(), Error>)
        ensures
            r is Ok <==> self.queue@.len() == 0,
            r matches Err(e) ==> (if workers == 1 && failure is Some {
                e == failure->0
            } else {
                e.fatal && e.error_type == crate::error::ErrorType::Solver
                    && e.message@ == decimal(self.queue@.len() as nat) + " URLs were not downloaded"@
            }),
    {
        if self.queue.len() == 0 {
            return Ok(());
        }
        match failure {
            Some(e) => {
                if workers == 1 {
                    return Err(e);
                }
            },
            None => {},
        }
        self.outcome()
    }
}

/// How many workers a download runs: one per configured egress path where asked to use
/// several, otherwise one; asking for several with none configured is a fatal error.
pub fn worker_count(use_threads: bool, configured: usize) -> (r: Result<usize, Error>)
    ensures
        r is Err <==> (use_threads && configured == 0),
        r matches Ok(n) ==> n == (if use_threads { configured } else { 1 }),
        r matches Err(e) ==> e.fatal && e.error_type == crate::error::ErrorType::Solver,
{
    if !use_threads {
        Ok(1)
    } else if configured == 0 {
        Err(Error::solver("must have at least 1 proxy configured"))
    } else {
        Ok(configured)
    }
}

/// One round of a worker whose fetch succeeds: take the front item, then mark it delivered.
pub open spec fn success_round(q: Seq<(usize, String)>, st: Seq<ItemState>) -> (Seq<(usize, String)>, Seq<ItemState>) {
    if q.len() == 0 {
        (q, st)
    } else {
        (q.drop_first(), st.update(q[0].0 as int, ItemState::Taken).update(q[0].0 as int, ItemState::Delivered))
    }
}

/// The queue and states after `n` successful rounds, by whichever workers.
pub open spec fn success_rounds(q: Seq<(usize, String)>, st: Seq<ItemState>, n: nat) -> (Seq<(usize, String)>, Seq<ItemState>)
    decreases n,
{
    if n == 0 {
        (q, st)
    } else {
        let r = success_round(q, st);
        success_rounds(r.0, r.1, (n - 1) as nat)
    }
}

/// Where every fetch succeeds, as many rounds as there are queued items drain the queue
/// and leave every backlog position delivered: the run reports success, with one output for
/// each position.
pub proof fn lemma_successful_run_drains(q: Seq<(usize, String)>, st: Seq<ItemState>)
    requires
        queue_wf(q, st),
        forall|k: int| 0 <= k < st.len() ==> st[k] != ItemState::Taken,
    ensures
        success_rounds(q, st, q.len()).0.len() == 0,
        success_rounds(q, st, q.len()).1.len() == st.len(),
        forall|k: int| 0 <= k < st.len() ==> #[trigger] success_rounds(q, st, q.len()).1[k] == ItemState::Delivered,
        queue_wf(success_rounds(q, st, q.len()).0, success_rounds(q, st, q.len()).1),
    decreases q.len(),
{
    if q.len() == 0 {
        assert forall|k: int| 0 <= k < st.len() implies #[trigger] st[k] == ItemState::Delivered by {
            if st[k] == ItemState::Queued {
                let i = choose|i: int| 0 <= i < q.len() && (#[trigger] q[i]).0 == k;
            }
        }
    } else {
        let k0 = q[0].0 as int;
        lemma_take_keeps_wf(q, st);
        let st1 = st.update(k0, ItemState::Taken);
        lemma_mark_keeps_wf(q.drop_first(), st1, k0, ItemState::Delivered);
        let r = success_round(q, st);
        assert(r.1 == st1.update(k0, ItemState::Delivered));
        assert forall|k: int| 0 <= k < r.1.len() implies r.1[k] != ItemState::Taken by {
            if k != k0 {
                assert(r.1[k] == st[k]);
            }
        }
        lemma_successful_run_drains(r.0, r.1);
        assert(success_rounds(q, st, q.len()) == success_rounds(r.0, r.1, r.0.len()));
    }
}

/// Any operation keeps the queue well formed, keeps the number of positions, and never
/// changes a delivered position.
pub proof fn lemma_step_keeps_wf(q: Seq<(usize, String)>, st: Seq<ItemState>, op: PoolOp)
    requires
        queue_wf(q, st),
    ensures
        queue_wf(pool_step(q, st, op).0, pool_step(q, st, op).1),
        pool_step(q, st, op).1.len() == st.len(),
        forall|k: int| 0 <= k < st.len() && st[k] == ItemState::Delivered ==> #[trigger] pool_step(q, st, op).1[k] == ItemState::Delivered,
{
    match op {
        PoolOp::Take => {
            if q.len() > 0 {
                lemma_take_keeps_wf(q, st);
                assert(st[q[0].0 as int] == ItemState::Queued);
            }
        },
        PoolOp::Complete(k) => {
            if k < st.len() && st[k as int] == ItemState::Taken {
                lemma_mark_keeps_wf(q, st, k as int, ItemState::Delivered);
            }
        },
        PoolOp::GiveBack(item) => {
            if item.0 < st.len() && st[item.0 as int] == ItemState::Taken {
                lemma_give_back_keeps_wf(q, st, item);
            }
        },
    }
}

/// Whatever the workers do, in whatever order, with whatever failures and requeues: the
/// queue stays well formed, so no item is dropped or held twice; a delivered item stays
/// delivered, so no output is produced twice; and once no item is taken, the queue holds
/// exactly the undelivered items, so the run reports success exactly when every item was
/// delivered and otherwise reports how many were not.
pub proof fn lemma_any_run_is_honest(q: Seq<(usize, String)>, st: Seq<ItemState>, ops: Seq<PoolOp>)
    requires
        queue_wf(q, st),
    ensures
        queue_wf(pool_run(q, st, ops).0, pool_run(q, st, ops).1),
        pool_run(q, st, ops).1.len() == st.len(),
        forall|k: int| 0 <= k < st.len() && st[k] == ItemState::Delivered ==> #[trigger] pool_run(q, st, ops).1[k] == ItemState::Delivered,
        (forall|k: int| 0 <= k < st.len() ==> pool_run(q, st, ops).1[k] != ItemState::Taken) ==> {
            let end = pool_run(q, st, ops);
            &&& end.0.len() == positions_in(end.1, ItemState::Queued).len()
            &&& (end.0.len() == 0 <==> forall|k: int| 0 <= k < st.len() ==> end.1[k] == ItemState::Delivered)
        },
    decreases ops.len(),
{
    if ops.len() > 0 {
        let r = pool_step(q, st, ops[0]);
        lemma_step_keeps_wf(q, st, ops[0]);
        lemma_any_run_is_honest(r.0, r.1, ops.drop_first());
        assert forall|k: int| 0 <= k < st.len() && st[k] == ItemState::Delivered implies #[trigger] pool_run(q, st, ops).1[k] == ItemState::Delivered by {
            assert(r.1[k] == ItemState::Delivered);
        }
    }
    let end = pool_run(q, st, ops);
    if forall|k: int| 0 <= k < st.len() ==> end.1[k] != ItemState::Taken {
        lemma_queue_counts_undelivered(end.0, end.1);
    }
}

/// Where every item but the one at position `j` was delivered and no item is taken, the
/// queue holds exactly that one item: it was neither dropped nor duplicated, and the run
/// reports one undelivered item.
pub proof fn lemma_one_undelivered(q: Seq<(usize, String)>, st: Seq<ItemState>, j: int)
    requires
        queue_wf(q, st),
        0 <= j < st.len(),
        st[j] != ItemState::Delivered,
        forall|k: int| 0 <= k < st.len() ==> st[k] != ItemState::Taken,
        forall|k: int| 0 <= k < st.len() && k != j ==> st[k] == ItemState::Delivered,
    ensures
        q.len() == 1,
        q[0].0 == j,
{
    lemma_queue_counts_undelivered(q, st);
    assert(positions_in(st, ItemState::Queued) =~= set![j]);
    assert(set![j].len() == 1) by {
        assert(set![j] =~= Set::<int>::empty().insert(j));
    }
    assert(q[0].0 < st.len() && st[q[0].0 as int] == ItemState::Queued);
}

} // verus!
