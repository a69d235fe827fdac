//! The outstanding-work counter, modelled over the events of a run.
//!
//! During a run the counter starts at the number of seeded units, gains one
//! whenever a running unit enqueues a child, and loses one whenever a unit
//! finishes. The laws here pin down what the scheduler relies on: the
//! counter is an exact conservation tally, it reaches zero exactly when
//! every submitted unit has completed, and in a well-formed run it reaches
//! zero only at the very end, on a completion — which is why the one worker
//! that sees the counter step from one to zero can announce quiescence.
//! The scheduler's `run` loop carries a ghost trace of these events and
//! maintains `counter_after` as its loop invariant, so the laws here are
//! the very accounting the executable scheduler lives by.

use vstd::prelude::*;

verus! {

/// One counter-touching event of a run, in the order the counter saw them.
pub enum CounterEvent {
    /// A running work unit enqueued one child through its proxy.
    Enqueue,
    /// A work unit finished executing.
    Complete,
}

/// The counter after a sequence of events, applied one at a time to the
/// seed count, exactly as the workers' increments and decrements land.
pub open spec fn counter_after(seed_count: nat, events: Seq<CounterEvent>) -> int
    decreases events.len(),
{
    if events.len() == 0 {
        seed_count as int
    } else {
        counter_after(seed_count, events.drop_last()) + (match events.last() {
            CounterEvent::Enqueue => 1int,
            CounterEvent::Complete => -1int,
        })
    }
}

/// How many events of a sequence are enqueues.
pub open spec fn enqueues(events: Seq<CounterEvent>) -> nat
    decreases events.len(),
{
    if events.len() == 0 {
        0nat
    } else {
        enqueues(events.drop_last()) + (if events.last() is Enqueue {
            1nat
        } else {
            0nat
        })
    }
}

/// How many events of a sequence are completions.
pub open spec fn completions(events: Seq<CounterEvent>) -> nat
    decreases events.len(),
{
    if events.len() == 0 {
        0nat
    } else {
        completions(events.drop_last()) + (if events.last() is Complete {
            1nat
        } else {
            0nat
        })
    }
}

/// The number of units submitted to a run: the seeds plus every child
/// enqueued while the run executed. When each unit enqueues the children
/// of one node of a work tree, this is the number of nodes of the forest
/// grown from the seeds.
pub open spec fn submitted(seed_count: nat, events: Seq<CounterEvent>) -> nat {
    seed_count + enqueues(events)
}

/// A run's events are well formed when every one of them is issued by a
/// running work unit: the unit itself is still accounted for, so the
/// counter is positive just before each event.
pub open spec fn valid_events(seed_count: nat, events: Seq<CounterEvent>) -> bool {
    forall|i: int| 0 <= i < events.len() ==> counter_after(seed_count, #[trigger] events.take(i)) >= 1
}

/// A burst of `k` enqueue events in a row, as one work unit that pushes
/// `k` children produces.
pub open spec fn enqueue_burst(k: nat) -> Seq<CounterEvent> {
    Seq::new(k, |i: int| CounterEvent::Enqueue)
}

/// One more event moves the counter by exactly one and lands in exactly
/// one of the two tallies.
pub proof fn lemma_append_event(seed_count: nat, events: Seq<CounterEvent>, e: CounterEvent)
    ensures
        counter_after(seed_count, events.push(e)) == counter_after(seed_count, events) + (match e {
            CounterEvent::Enqueue => 1int,
            CounterEvent::Complete => -1int,
        }),
        enqueues(events.push(e)) == enqueues(events) + (if e is Enqueue {
            1nat
        } else {
            0nat
        }),
        completions(events.push(e)) == completions(events) + (if e is Complete {
            1nat
        } else {
            0nat
        }),
{
    assert(events.push(e).drop_last() =~= events);
    assert(events.push(e).last() == e);
}

/// An event issued while the counter is still positive keeps the sequence
/// well formed.
pub proof fn lemma_append_valid(seed_count: nat, events: Seq<CounterEvent>, e: CounterEvent)
    requires
        valid_events(seed_count, events),
        counter_after(seed_count, events) >= 1,
    ensures
        valid_events(seed_count, events.push(e)),
{
    let p = events.push(e);
    assert forall|i: int| 0 <= i < p.len() implies counter_after(
        seed_count,
        #[trigger] p.take(i),
    ) >= 1 by {
        if i < events.len() {
            assert(p.take(i) =~= events.take(i));
        } else {
            assert(p.take(i) =~= events);
        }
    }
}

/// A burst of enqueues, issued while the counter is positive, raises the
/// counter by its size, counts only as enqueues, and keeps the sequence
/// well formed.
pub proof fn lemma_enqueue_burst(seed_count: nat, events: Seq<CounterEvent>, k: nat)
    requires
        valid_events(seed_count, events),
        counter_after(seed_count, events) >= 1,
    ensures
        counter_after(seed_count, events + enqueue_burst(k)) == counter_after(seed_count, events)
            + k,
        enqueues(events + enqueue_burst(k)) == enqueues(events) + k,
        completions(events + enqueue_burst(k)) == completions(events),
        valid_events(seed_count, events + enqueue_burst(k)),
    decreases k,
{
    if k == 0 {
        assert(events + enqueue_burst(0) =~= events);
    } else {
        let prev = events + enqueue_burst((k - 1) as nat);
        lemma_enqueue_burst(seed_count, events, (k - 1) as nat);
        assert(events + enqueue_burst(k) =~= prev.push(CounterEvent::Enqueue));
        lemma_append_event(seed_count, prev, CounterEvent::Enqueue);
        lemma_append_valid(seed_count, prev, CounterEvent::Enqueue);
    }
}

/// Conservation: at every point the counter equals the seed count plus the
/// enqueues so far minus the completions so far.
pub proof fn lemma_counter_conservation(seed_count: nat, events: Seq<CounterEvent>)
    ensures
        counter_after(seed_count, events) == submitted(seed_count, events) - completions(events),
    decreases events.len(),
{
    if events.len() > 0 {
        lemma_counter_conservation(seed_count, events.drop_last());
    }
}

/// Termination detection: the counter reads zero exactly when every
/// submitted unit has completed — each completion is one execution, so at
/// that point every submitted unit was executed exactly once, and the total
/// number of executions equals the node count of the submitted work forest.
pub proof fn lemma_zero_iff_all_done(seed_count: nat, events: Seq<CounterEvent>)
    ensures
        counter_after(seed_count, events) == 0 <==> completions(events) == submitted(
            seed_count,
            events,
        ),
{
    lemma_counter_conservation(seed_count, events);
}

/// In a well-formed run the counter stays positive up to the last event, so
/// it can reach zero only once, and only on a final completion: the one
/// worker that observes the step from one to zero knows the whole run is
/// quiescent.
pub proof fn lemma_zero_only_at_end(seed_count: nat, events: Seq<CounterEvent>)
    requires
        valid_events(seed_count, events),
        counter_after(seed_count, events) == 0,
    ensures
        events.len() > 0 ==> events.last() is Complete,
        forall|i: int|
            0 <= i < events.len() ==> counter_after(seed_count, #[trigger] events.take(i)) > 0,
{
    if events.len() > 0 {
        assert(events.take(events.len() - 1) == events.drop_last());
        assert(counter_after(seed_count, events.drop_last()) >= 1);
        if events.last() is Enqueue {
            assert(counter_after(seed_count, events) >= 2);
        }
    } else {
        assert(seed_count == 0);
    }
}

} // verus!
