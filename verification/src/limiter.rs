//! The bounded-parallelism model: a counting limiter that a worker must
//! acquire before starting a host's work and releases when it finishes.
//! This is the system's backpressure: it bounds simultaneous outbound
//! connections regardless of how many hosts were named.
use vstd::prelude::*;

verus! {

/// A counting limiter with a fixed capacity.
pub struct Limiter {
    pub capacity: usize,
    pub active: usize,
}

impl Limiter {
    /// The limiter's invariant: never more holders than capacity.
    pub open spec fn wf(&self) -> bool {
        self.active <= self.capacity
    }

    /// A fresh limiter with every slot free.
    pub fn new(capacity: usize) -> (r: Limiter)
        ensures
            r.capacity == capacity,
            r.active == 0,
            r.wf(),
    {
        Limiter { capacity, active: 0 }
    }

    /// Takes a slot if one is free; returns whether one was taken.
    pub fn try_acquire(&mut self) -> (r: bool)
        requires
            old(self).wf(),
        ensures
            final(self).wf(),
            final(self).capacity == old(self).capacity,
            r == (old(self).active < old(self).capacity),
            r ==> final(self).active == old(self).active + 1,
            !r ==> final(self).active == old(self).active,
    {
        if self.active < self.capacity {
            self.active = self.active + 1;
            true
        } else {
            false
        }
    }

    /// Returns a slot.
    pub fn release(&mut self)
        requires
            old(self).active > 0,
        ensures
            final(self).capacity == old(self).capacity,
            final(self).active == old(self).active - 1,
    {
        self.active = self.active - 1;
    }
}

/// One observable scheduling event: a host's work started (under a free
/// slot), or a host's work finished (releasing its slot).
#[derive(Clone, Copy)]
pub enum WorkerEvent {
    Started,
    Finished,
}

/// The number of hosts simultaneously active after a sequence of events,
/// starting from an idle limiter of the given capacity.  A start takes
/// effect only when a slot is free — a worker waits otherwise — and a finish
/// releases the slot its start took.
pub open spec fn active_after(capacity: int, events: Seq<WorkerEvent>) -> int
    decreases events.len(),
{
    if events.len() == 0 {
        0
    } else {
        let prev = active_after(capacity, events.drop_last());
        match events.last() {
            WorkerEvent::Started => if prev < capacity {
                prev + 1
            } else {
                prev
            },
            WorkerEvent::Finished => if prev > 0 {
                prev - 1
            } else {
                prev
            },
        }
    }
}

/// At no point in any schedule are more hosts active than the capacity:
/// after every prefix of every event sequence, the active count lies between
/// zero and the concurrency limit.
pub proof fn lemma_concurrency_bounded(capacity: int, events: Seq<WorkerEvent>, k: int)
    requires
        capacity >= 0,
        0 <= k <= events.len(),
    ensures
        0 <= active_after(capacity, events.take(k)) <= capacity,
{
    lemma_active_bounded(capacity, events.take(k));
}

proof fn lemma_active_bounded(capacity: int, events: Seq<WorkerEvent>)
    requires
        capacity >= 0,
    ensures
        0 <= active_after(capacity, events) <= capacity,
    decreases events.len(),
{
    if events.len() > 0 {
        lemma_active_bounded(capacity, events.drop_last());
    }
}

/// Replays a schedule against a real limiter and reports the greatest number
/// of simultaneously active hosts it ever saw — the instrumented counter a
/// test observes.
pub fn max_active_in(capacity: usize, events: &Vec<WorkerEvent>) -> (r: usize)
    ensures
        r <= capacity,
        forall|k: int|
            0 <= k <= events@.len() ==> active_after(capacity as int, events@.take(k)) <= r,
        exists|k: int|
            0 <= k <= events@.len() && active_after(capacity as int, #[trigger] events@.take(k))
                == r,
{
    let mut lim = Limiter::new(capacity);
    let mut max: usize = 0;
    let mut i: usize = 0;
    let ghost mut wit: int = 0;
    proof {
        assert(events@.take(0) =~= Seq::<WorkerEvent>::empty());
    }
    while i < events.len()
        invariant
            i <= events@.len(),
            lim.capacity == capacity,
            lim.wf(),
            max <= capacity,
            lim.active <= max,
            lim.active == active_after(capacity as int, events@.take(i as int)),
            forall|k: int|
                0 <= k <= i ==> active_after(capacity as int, events@.take(k)) <= max,
            0 <= wit <= i,
            active_after(capacity as int, events@.take(wit)) == max,
        decreases events@.len() - i,
    {
        proof {
            let t = events@.take(i + 1);
            assert(t.drop_last() =~= events@.take(i as int));
            assert(t.last() == events@[i as int]);
        }
        match events[i] {
            WorkerEvent::Started => {
                let got = lim.try_acquire();
                if got && lim.active > max {
                    max = lim.active;
                    proof {
                        wit = i + 1;
                    }
                }
            },
            WorkerEvent::Finished => {
                if lim.active > 0 {
                    lim.release();
                }
            },
        }
        i += 1;
    }
    max
}

} // verus!
