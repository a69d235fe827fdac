//! The work queue: a supervisor owning one deque per worker, a proxy through
//! which an executing work unit enqueues children, and a scheduler that
//! drives the seeded workload, and everything it transitively enqueues, to
//! quiescence.
//!
//! The scheduler here is the sequential embedding of the protocol: work
//! units are executed one at a time, each on behalf of a rotating worker
//! whose deque receives the unit's children; a worker with an empty deque
//! takes a unit from a randomly chosen victim, as the threaded STEAL phase
//! would. The outstanding-work counter is maintained exactly as the
//! protocol demands: it starts at the seed count, grows by one per proxy
//! push, shrinks by one per completion, and the run is over when it reaches
//! zero.

use vstd::prelude::*;

use crate::counter::{
    counter_after, completions, enqueue_burst, enqueues, lemma_append_event, lemma_append_valid,
    lemma_enqueue_burst, valid_events, CounterEvent,
};
use crate::deque::{Deque, Steal};
use crate::worker::pick_victim;

verus! {

/// The behaviour of a work-unit function, implemented by the queue's users.
///
/// The contract on `call` holds of every implementation, verified or not: a
/// work-unit body can reach its proxy only through `push` and `user_data`,
/// so the worker's local queue can only grow at the bottom, the
/// outstanding-work counter moves in step with it, and the user data is
/// never replaced.
pub trait WorkFn<Q, W>: Sized {
    /// Executes one unit of work on `data`. Further units may be enqueued
    /// through the proxy; the queue-wide user data may be read through it.
    fn call(&self, data: W, proxy: &mut WorkerProxy<Q, W, Self>)
        ensures
            old(proxy).local_queue().is_prefix_of(final(proxy).local_queue()),
            final(proxy).outstanding() - old(proxy).outstanding()
                == final(proxy).local_queue().len() - old(proxy).local_queue().len(),
            final(proxy).queue_data_spec() == old(proxy).queue_data_spec(),
    ;
}

/// A unit of work: a function and the payload it is applied to. Units are
/// moved, never shared; once taken from a deque a unit is executed exactly
/// once and dropped.
pub struct WorkUnit<W, F> {
    /// The function to execute.
    pub fun: F,
    /// Arbitrary data handed to the function.
    pub data: W,
}

/// The handle granted to a running work unit: borrowed access to the
/// executing worker's deque, the outstanding-work counter, and the
/// queue-wide read-only user data.
pub struct WorkerProxy<'a, Q, W, F> {
    worker: Deque<WorkUnit<W, F>>,
    ref_count: usize,
    queue_data: &'a Q,
}

impl<'a, Q, W, F> WorkerProxy<'a, Q, W, F> {
    /// The outstanding-work counter as the proxy sees it.
    pub closed spec fn outstanding(self) -> int {
        self.ref_count as int
    }

    /// The contents of the executing worker's deque, top first.
    pub closed spec fn local_queue(self) -> Seq<WorkUnit<W, F>> {
        self.worker@
    }

    /// The queue-wide user data.
    pub closed spec fn queue_data_spec(self) -> Q {
        *self.queue_data
    }

    /// Enqueues a unit into the executing worker's deque. The
    /// outstanding-work counter is bumped before the push, so the new unit
    /// is accounted for before any thief could complete it.
    pub fn push(&mut self, work_unit: WorkUnit<W, F>)
        requires
            old(self).outstanding() < usize::MAX,
        ensures
            final(self).local_queue() == old(self).local_queue().push(work_unit),
            final(self).outstanding() == old(self).outstanding() + 1,
            final(self).queue_data_spec() == old(self).queue_data_spec(),
    {
        self.ref_count = self.ref_count + 1;
        self.worker.push(work_unit);
    }

    /// A read-only borrow of the queue-wide user data.
    pub fn user_data(&self) -> (r: &Q)
        ensures
            *r == self.queue_data_spec(),
    {
        self.queue_data
    }
}

/// Supervisor-side record for one worker: its deque, present while the
/// worker is idle and absent while a unit is being executed on its behalf.
struct WorkerInfo<W, F> {
    deque: Option<Deque<WorkUnit<W, F>>>,
}

/// How many units a worker's deque holds; an absent deque holds none.
spec fn info_len<W, F>(w: WorkerInfo<W, F>) -> nat {
    match w.deque {
        Some(d) => d@.len(),
        None => 0nat,
    }
}

/// The total number of units queued across all workers.
spec fn total_queued<W, F>(ws: Seq<WorkerInfo<W, F>>) -> nat
    decreases ws.len(),
{
    if ws.len() == 0 {
        0nat
    } else {
        total_queued(ws.drop_last()) + info_len(ws.last())
    }
}

/// Every worker's deque is in the supervisor's hands.
spec fn all_present<W, F>(ws: Seq<WorkerInfo<W, F>>) -> bool {
    forall|i: int| 0 <= i < ws.len() ==> ws[i].deque is Some
}

proof fn lemma_total_push<W, F>(ws: Seq<WorkerInfo<W, F>>, w: WorkerInfo<W, F>)
    ensures
        total_queued(ws.push(w)) == total_queued(ws) + info_len(w),
{
    assert(ws.push(w).drop_last() =~= ws);
    assert(ws.push(w).last() == w);
}

proof fn lemma_total_update<W, F>(ws: Seq<WorkerInfo<W, F>>, i: int, w: WorkerInfo<W, F>)
    requires
        0 <= i < ws.len(),
    ensures
        total_queued(ws.update(i, w)) + info_len(ws[i]) == total_queued(ws) + info_len(w),
    decreases ws.len(),
{
    let u = ws.update(i, w);
    if i == ws.len() - 1 {
        assert(u.drop_last() =~= ws.drop_last());
        assert(u.last() == w);
    } else {
        assert(u.drop_last() =~= ws.drop_last().update(i, w));
        assert(u.last() == ws.last());
        lemma_total_update(ws.drop_last(), i, w);
    }
}

proof fn lemma_total_elem<W, F>(ws: Seq<WorkerInfo<W, F>>, i: int)
    requires
        0 <= i < ws.len(),
    ensures
        info_len(ws[i]) <= total_queued(ws),
    decreases ws.len(),
{
    if i < ws.len() - 1 {
        lemma_total_elem(ws.drop_last(), i);
        assert(ws.drop_last()[i] == ws[i]);
    }
}

proof fn lemma_total_all_empty<W, F>(ws: Seq<WorkerInfo<W, F>>)
    requires
        forall|j: int| 0 <= j < ws.len() ==> info_len(ws[j]) == 0,
    ensures
        total_queued(ws) == 0,
    decreases ws.len(),
{
    if ws.len() > 0 {
        assert forall|j: int| 0 <= j < ws.drop_last().len() implies info_len(
            ws.drop_last()[j],
        ) == 0 by {
            assert(ws.drop_last()[j] == ws[j]);
        }
        lemma_total_all_empty(ws.drop_last());
        assert(info_len(ws.last()) == info_len(ws[ws.len() - 1]));
    }
}

/// Owner-side removal: pops the most recent unit from worker `i`'s deque.
fn pop_at<W, F>(ws: &mut Vec<WorkerInfo<W, F>>, i: usize) -> (u: Option<WorkUnit<W, F>>)
    requires
        i < old(ws)@.len(),
        all_present(old(ws)@),
    ensures
        final(ws)@.len() == old(ws)@.len(),
        all_present(final(ws)@),
        u is Some <==> info_len(old(ws)@[i as int]) > 0,
        u is Some ==> total_queued(final(ws)@) + 1 == total_queued(old(ws)@),
        u is None ==> total_queued(final(ws)@) == total_queued(old(ws)@),
{
    let ghost ws0 = ws@;
    let info = &mut ws[i];
    let mut d_opt: Option<Deque<WorkUnit<W, F>>> = None;
    std::mem::swap(&mut d_opt, &mut info.deque);
    let mut d = match d_opt {
        Some(d) => d,
        None => vstd::pervasive::unreached(),
    };
    let u = d.pop();
    info.deque = Some(d);
    proof {
        lemma_total_update(ws0, i as int, ws@[i as int]);
    }
    u
}

/// Thief-side removal: steals the oldest unit from worker `i`'s deque.
fn steal_at<W, F>(ws: &mut Vec<WorkerInfo<W, F>>, i: usize) -> (u: Option<WorkUnit<W, F>>)
    requires
        i < old(ws)@.len(),
        all_present(old(ws)@),
    ensures
        final(ws)@.len() == old(ws)@.len(),
        all_present(final(ws)@),
        u is Some <==> info_len(old(ws)@[i as int]) > 0,
        u is Some ==> total_queued(final(ws)@) + 1 == total_queued(old(ws)@),
        u is None ==> total_queued(final(ws)@) == total_queued(old(ws)@),
{
    let ghost ws0 = ws@;
    let info = &mut ws[i];
    let mut d_opt: Option<Deque<WorkUnit<W, F>>> = None;
    std::mem::swap(&mut d_opt, &mut info.deque);
    let mut d = match d_opt {
        Some(d) => d,
        None => vstd::pervasive::unreached(),
    };
    let stolen = d.steal();
    info.deque = Some(d);
    proof {
        lemma_total_update(ws0, i as int, ws@[i as int]);
    }
    match stolen {
        Steal::Data(u) => Some(u),
        Steal::Empty => None,
        Steal::Abort => None,
    }
}

/// Finds work for worker `active`: first its own deque's bottom, then one
/// steal attempt on a random victim, then a sweep of every deque. At least
/// one unit is queued, so the sweep cannot come up empty.
fn acquire_unit<W, F>(ws: &mut Vec<WorkerInfo<W, F>>, active: usize) -> (unit: WorkUnit<W, F>)
    requires
        active < old(ws)@.len(),
        all_present(old(ws)@),
        total_queued(old(ws)@) >= 1,
    ensures
        final(ws)@.len() == old(ws)@.len(),
        all_present(final(ws)@),
        total_queued(final(ws)@) + 1 == total_queued(old(ws)@),
{
    let n = ws.len();
    if let Some(u) = pop_at(ws, active) {
        return u;
    }
    if n > 1 {
        let v = pick_victim(n - 1);
        let victim = if v < active {
            v
        } else {
            v + 1
        };
        if let Some(u) = steal_at(ws, victim) {
            return u;
        }
    }
    let mut k: usize = 0;
    while k < n
        invariant
            k <= n,
            n == ws@.len(),
            ws@.len() == old(ws)@.len(),
            all_present(ws@),
            total_queued(ws@) == total_queued(old(ws)@),
            total_queued(old(ws)@) >= 1,
            forall|j: int| 0 <= j < k ==> info_len(ws@[j]) == 0,
        decreases n - k,
    {
        let occupied = match &ws[k].deque {
            Some(d) => d.len() > 0,
            None => false,
        };
        if occupied {
            if let Some(u) = steal_at(ws, k) {
                return u;
            }
            proof {
                assert(false);
            }
        }
        k = k + 1;
    }
    proof {
        lemma_total_all_empty(ws@);
    }
    vstd::pervasive::unreached()
}

/// A work queue on which units of work can be submitted, run to
/// quiescence, and submitted again.
pub struct WorkQueue<Q, W, F> {
    workers: Vec<WorkerInfo<W, F>>,
    work_count: usize,
    shut_down: bool,
    /// Arbitrary user data, shared read-only with every running work unit.
    pub data: Q,
}

impl<Q, W, F: WorkFn<Q, W>> WorkQueue<Q, W, F> {
    /// The number of workers in the pool.
    pub closed spec fn thread_count(self) -> nat {
        self.workers@.len()
    }

    /// The number of work units queued across all workers.
    pub closed spec fn pending(self) -> nat {
        total_queued(self.workers@)
    }

    /// Whether every worker's deque is back in the supervisor's hands.
    pub closed spec fn is_idle(self) -> bool {
        all_present(self.workers@)
    }

    /// Whether the queue has been shut down.
    pub closed spec fn shut(self) -> bool {
        self.shut_down
    }

    /// The queue-wide user data.
    pub closed spec fn user_data_spec(self) -> Q {
        self.data
    }

    /// The contents of worker `i`'s deque, top first.
    pub closed spec fn deque_at(self, i: int) -> Seq<WorkUnit<W, F>> {
        match self.workers@[i].deque {
            Some(d) => d@,
            None => Seq::empty(),
        }
    }

    /// The seed deque: pushes before a run all land on worker 0.
    pub open spec fn seeds(self) -> Seq<WorkUnit<W, F>> {
        self.deque_at(0)
    }

    /// A queue is well formed when it has at least one worker, every deque
    /// is present, and the submission tally agrees with what is queued.
    pub closed spec fn wf(self) -> bool {
        self.workers@.len() >= 1 && all_present(self.workers@) && self.work_count
            == total_queued(self.workers@)
    }

    /// Once the queue has drained, every worker's deque is present and
    /// empty.
    pub proof fn lemma_quiescent(self)
        requires
            self.wf(),
            self.pending() == 0,
        ensures
            forall|i: int| 0 <= i < self.thread_count() ==> self.deque_at(i).len() == 0,
    {
        assert forall|i: int| 0 <= i < self.thread_count() implies self.deque_at(i).len()
            == 0 by {
            lemma_total_elem(self.workers@, i);
        }
    }

    /// Creates a work queue with `thread_count` workers, each idle with an
    /// empty deque.
    pub fn new(thread_count: usize, user_data: Q) -> (q: Self)
        requires
            thread_count >= 1,
        ensures
            q.wf(),
            !q.shut(),
            q.is_idle(),
            q.thread_count() == thread_count,
            q.pending() == 0,
            q.user_data_spec() == user_data,
            forall|i: int|
                0 <= i < thread_count ==> q.deque_at(i) == Seq::<WorkUnit<W, F>>::empty(),
    {
        let mut workers: Vec<WorkerInfo<W, F>> = Vec::new();
        let mut i: usize = 0;
        while i < thread_count
        invariant
            i <= thread_count,
            workers@.len() == i,
            all_present(workers@),
            total_queued(workers@) == 0,
            forall|j: int| 0 <= j < i ==> info_len(workers@[j]) == 0,
        decreases thread_count - i,
        {
            let ghost ws0 = workers@;
            let d: Deque<WorkUnit<W, F>> = Deque::new();
            let info = WorkerInfo { deque: Some(d) };
            proof {
                lemma_total_push(ws0, info);
            }
            workers.push(info);
            i = i + 1;
        }
        let q = WorkQueue { workers, work_count: 0, shut_down: false, data: user_data };
        proof {
            assert forall|j: int|
                0 <= j < thread_count implies q.deque_at(j) == Seq::<WorkUnit<W, F>>::empty() by {
                assert(info_len(q.workers@[j]) == 0);
                assert(q.deque_at(j) =~= Seq::<WorkUnit<W, F>>::empty());
            }
        }
        q
    }

    /// Enqueues a seed unit onto worker 0's deque. Seeds pile up on one
    /// worker on purpose: stealing redistributes them as soon as the run
    /// starts, and the owner gets the first units warm.
    pub fn push(&mut self, work_unit: WorkUnit<W, F>)
        requires
            old(self).wf(),
            !old(self).shut(),
            old(self).pending() < usize::MAX,
        ensures
            final(self).wf(),
            !final(self).shut(),
            final(self).is_idle(),
            final(self).thread_count() == old(self).thread_count(),
            final(self).user_data_spec() == old(self).user_data_spec(),
            final(self).pending() == old(self).pending() + 1,
            final(self).seeds() == old(self).seeds().push(work_unit),
            forall|i: int|
                1 <= i < final(self).thread_count() ==> final(self).deque_at(i) == old(
                    self,
                ).deque_at(i),
    {
        let ghost ws0 = self.workers@;
        let info = &mut self.workers[0];
        let mut d_opt: Option<Deque<WorkUnit<W, F>>> = None;
        std::mem::swap(&mut d_opt, &mut info.deque);
        let mut d = match d_opt {
            Some(d) => d,
            None => vstd::pervasive::unreached(),
        };
        d.push(work_unit);
        info.deque = Some(d);
        proof {
            lemma_total_update(ws0, 0int, self.workers@[0int]);
        }
        self.work_count = self.work_count + 1;
    }

    /// The number of work units currently queued.
    pub fn queued_count(&self) -> (n: usize)
        requires
            self.wf(),
        ensures
            n == self.pending(),
    {
        self.work_count
    }

    /// Whether `shutdown` has been called.
    pub fn is_shut_down(&self) -> (b: bool)
        ensures
            b == self.shut(),
    {
        self.shut_down
    }

    /// Runs every queued unit, and every unit those transitively enqueue,
    /// to quiescence, and returns the number of work-unit executions
    /// performed. A single run executes at most `u64::MAX` units; a
    /// workload that would exceed that bound is cut off there with the
    /// remainder still queued, which the return value makes visible.
    pub fn run(&mut self) -> (executed: u64)
        requires
            old(self).wf(),
            !old(self).shut(),
        ensures
            final(self).wf(),
            !final(self).shut(),
            final(self).is_idle(),
            final(self).thread_count() == old(self).thread_count(),
            final(self).user_data_spec() == old(self).user_data_spec(),
            executed < u64::MAX ==> final(self).pending() == 0 && executed >= old(
                self,
            ).pending(),
            final(self).pending() == 0 || executed == u64::MAX,
            old(self).pending() == 0 ==> executed == 0,
    {
        let ghost n0 = self.workers@.len();
        let ghost data0 = self.data;
        let ghost pending0 = total_queued(self.workers@);
        let ghost mut events: Seq<CounterEvent> = Seq::empty();
        let n = self.workers.len();
        let mut counter: usize = self.work_count;
        self.work_count = 0;
        let mut executed: u64 = 0;
        let mut active: usize = 0;
        while counter > 0 && executed < u64::MAX
            invariant
                n == n0,
                n0 >= 1,
                active < n0,
                self.workers@.len() == n0,
                all_present(self.workers@),
                counter == total_queued(self.workers@),
                self.work_count == 0,
                self.shut_down == false,
                self.data == data0,
                executed as int + counter == pending0 + enqueues(events),
                pending0 == 0 ==> executed == 0 && enqueues(events) == 0,
                valid_events(pending0, events),
                counter == counter_after(pending0, events),
                completions(events) == executed,
            decreases u64::MAX - executed,
        {
            let unit = acquire_unit(&mut self.workers, active);
            let ghost ws_mid = self.workers@;
            let info = &mut self.workers[active];
            let mut d_opt: Option<Deque<WorkUnit<W, F>>> = None;
            std::mem::swap(&mut d_opt, &mut info.deque);
            let d = match d_opt {
                Some(d) => d,
                None => vstd::pervasive::unreached(),
            };
            proof {
                lemma_total_update(ws_mid, active as int, self.workers@[active as int]);
                lemma_total_elem(ws_mid, active as int);
            }
            let ghost ws_taken = self.workers@;
            let ghost len_a = d@.len();
            let WorkUnit { fun, data } = unit;
            let mut proxy = WorkerProxy { worker: d, ref_count: counter, queue_data: &self.data };
            fun.call(data, &mut proxy);
            let WorkerProxy { worker: d2, ref_count: rc2, queue_data: _ } = proxy;
            let ghost len2 = d2@.len();
            let info2 = &mut self.workers[active];
            info2.deque = Some(d2);
            proof {
                lemma_total_update(ws_taken, active as int, self.workers@[active as int]);
                let k = (len2 - len_a) as nat;
                lemma_enqueue_burst(pending0, events, k);
                events = events + enqueue_burst(k);
                lemma_append_event(pending0, events, CounterEvent::Complete);
                lemma_append_valid(pending0, events, CounterEvent::Complete);
                events = events.push(CounterEvent::Complete);
            }
            counter = rc2 - 1;
            executed = executed + 1;
            active = if active + 1 < n {
                active + 1
            } else {
                0
            };
        }
        self.work_count = counter;
        executed
    }

    /// Shuts the queue down. The queue must not be used again afterwards;
    /// a second `shutdown` is a no-op.
    pub fn shutdown(&mut self)
        ensures
            final(self).shut(),
            final(self).thread_count() == old(self).thread_count(),
            final(self).pending() == old(self).pending(),
            final(self).is_idle() == old(self).is_idle(),
            final(self).user_data_spec() == old(self).user_data_spec(),
            old(self).wf() ==> final(self).wf(),
            forall|i: int|
                0 <= i < old(self).thread_count() ==> final(self).deque_at(i) == old(
                    self,
                ).deque_at(i),
    {
        self.shut_down = true;
    }
}

} // verus!
