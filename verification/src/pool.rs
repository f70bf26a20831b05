//! The worker pool's admission logic.
//!
//! The pool bounds how many tasks may have their executor half actually
//! running at once. Tasks beyond the bound wait in a FIFO queue, admitted
//! strictly in submission order when a slot frees; the pool never reorders or
//! prioritizes. The threads that do the running belong to an external
//! scheduler; this module is the verified bookkeeping of slots and queue that
//! such a scheduler drives, one event at a time: a submission, or a running
//! task finishing.

use vstd::prelude::*;

verus! {

/// Slot and queue bookkeeping of one pool. The number of occupied slots never
/// exceeds the capacity the pool was created with, and the capacity is
/// positive: a zero worker count is invalid configuration, rejected before
/// any pool exists.
pub struct WorkerPool {
    capacity: usize,
    running: usize,
    waiting: Vec<usize>,
}

impl WorkerPool {
    /// How many tasks may run concurrently; fixed at creation.
    pub closed spec fn capacity(&self) -> nat {
        self.capacity as nat
    }

    /// How many tasks currently occupy a slot.
    pub closed spec fn running(&self) -> nat {
        self.running as nat
    }

    /// The task indexes waiting for a slot, first submitted first.
    pub closed spec fn waiting(&self) -> Seq<usize> {
        self.waiting@
    }

    /// The pool's invariant: a positive capacity that the number of occupied
    /// slots never exceeds, and nothing waits while a slot is free.
    pub closed spec fn wf(&self) -> bool {
        &&& 0 < self.capacity
        &&& self.running <= self.capacity
        &&& self.waiting@.len() > 0 ==> self.running == self.capacity
    }

    /// An empty pool with the given number of slots. A zero worker count is
    /// rejected at configuration validation and never reaches this point.
    pub fn new(capacity: usize) -> (p: Self)
        requires
            capacity > 0,
        ensures
            p.wf(),
            p.capacity() == capacity,
            p.running() == 0,
            p.waiting() == Seq::<usize>::empty(),
    {
        let p = WorkerPool { capacity, running: 0, waiting: Vec::new() };
        proof {
            assert(p.waiting@ =~= Seq::<usize>::empty());
        }
        p
    }

    /// Submit one task. It is admitted to a slot at once exactly when a slot
    /// is free and nothing submitted earlier is still waiting; otherwise it
    /// joins the back of the queue, behind everything submitted before it.
    pub fn submit(&mut self, task_index: usize) -> (admitted: bool)
        requires
            old(self).wf(),
        ensures
            final(self).wf(),
            final(self).capacity() == old(self).capacity(),
            admitted <==> old(self).running() < old(self).capacity(),
            admitted ==> {
                &&& final(self).running() == old(self).running() + 1
                &&& final(self).waiting() == old(self).waiting()
            },
            !admitted ==> {
                &&& final(self).running() == old(self).running()
                &&& final(self).waiting() == old(self).waiting().push(task_index)
            },
    {
        if self.running < self.capacity {
            self.running = self.running + 1;
            true
        } else {
            self.waiting.push(task_index);
            false
        }
    }

    /// A running task finished. Its slot passes to the longest-waiting task,
    /// if any is queued — admission is FIFO by submission order — and the
    /// admitted task's index is returned; with an empty queue the slot simply
    /// frees.
    pub fn task_finished(&mut self) -> (next: Option<usize>)
        requires
            old(self).wf(),
            old(self).running() > 0,
        ensures
            final(self).wf(),
            final(self).capacity() == old(self).capacity(),
            old(self).waiting().len() > 0 ==> {
                &&& next == Some(old(self).waiting()[0])
                &&& final(self).waiting() == old(self).waiting().skip(1)
                &&& final(self).running() == old(self).running()
            },
            old(self).waiting().len() == 0 ==> {
                &&& next is None
                &&& final(self).waiting() == old(self).waiting()
                &&& final(self).running() == old(self).running() - 1
            },
    {
        if self.waiting.len() > 0 {
            let idx = self.waiting.remove(0);
            proof {
                assert(self.waiting@ =~= old(self).waiting().skip(1));
            }
            Some(idx)
        } else {
            self.running = self.running - 1;
            None
        }
    }
}

/// Law: a single-slot pool serializes the run. With a worker count of one, at
/// most one task's executor occupies a slot at any time, so tasks run one
/// after another, never two at once.
pub proof fn lemma_single_worker_serializes(p: WorkerPool)
    requires
        p.wf(),
        p.capacity() == 1,
    ensures
        p.running() <= 1,
{
}

/// Law: the pool never exceeds its bound. In every well-formed pool state the
/// number of concurrently running tasks is at most the configured worker
/// count.
pub proof fn lemma_pool_bounds_concurrency(p: WorkerPool)
    requires
        p.wf(),
    ensures
        p.running() <= p.capacity(),
{
}

} // verus!
