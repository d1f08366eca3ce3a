//! The coordination core of the fixed-size worker pool: one producer feeds
//! a shared first-in-first-out job queue, a fixed set of workers take jobs
//! from it one at a time, and an orderly shutdown closes the queue and lets
//! the workers drain it before they terminate.
//!
//! This type is the pool's decision logic over plain values. The operating
//! system pieces — spawning the threads, blocking on the channel, joining —
//! run outside the crate and drive this state; each step a worker or the
//! owner takes is a call here, and the contracts say what every step does.
//! The ghost histories record what was ever submitted, handed to a worker,
//! and run to completion, so conservation of jobs can be stated exactly.

use vstd::prelude::*;
use vstd::multiset::Multiset;
use vstd::pervasive::VecAdditionalExecFns;

verus! {

/// What one worker is doing: waiting for a job, running one (the ghost
/// payload records which), or terminated after observing the closed queue.
pub enum WorkerState<J> {
    Idle,
    Executing(Ghost<J>),
    Terminated,
}

/// The error returned when a job is submitted after shutdown has begun.
#[derive(Clone, Copy, Debug, PartialEq, Eq, Structural)]
pub struct PoolClosed;

/// The fixed-size worker pool: the worker states, the queue of jobs not
/// yet handed to a worker, whether the sending side is still open, and the
/// ghost histories of all jobs ever submitted, delivered and finished.
pub struct ThreadPool<J> {
    workers: Vec<WorkerState<J>>,
    queue: Vec<J>,
    accepting: bool,
    submitted: Ghost<Seq<J>>,
    delivered: Ghost<Seq<J>>,
    finished: Ghost<Seq<J>>,
}

/// The multiset of jobs the given workers are running at this instant.
pub open spec fn executing_jobs<J>(workers: Seq<WorkerState<J>>) -> Multiset<J>
    decreases workers.len(),
{
    if workers.len() == 0 {
        Multiset::empty()
    } else {
        match workers.last() {
            WorkerState::Executing(g) => executing_jobs(workers.drop_last()).insert(g@),
            _ => executing_jobs(workers.drop_last()),
        }
    }
}

proof fn lemma_executing_none<J>(workers: Seq<WorkerState<J>>)
    requires
        forall|i: int| 0 <= i < workers.len() ==> !(workers[i] is Executing),
    ensures
        executing_jobs(workers) == Multiset::<J>::empty(),
    decreases workers.len(),
{
    if workers.len() > 0 {
        lemma_executing_none(workers.drop_last());
    }
}

proof fn lemma_executing_swap_non_executing<J>(
    workers: Seq<WorkerState<J>>,
    i: int,
    w: WorkerState<J>,
)
    requires
        0 <= i < workers.len(),
        !(workers[i] is Executing),
        !(w is Executing),
    ensures
        executing_jobs(workers.update(i, w)) == executing_jobs(workers),
    decreases workers.len(),
{
    let updated = workers.update(i, w);
    if i == workers.len() - 1 {
        assert(updated.drop_last() =~= workers.drop_last());
    } else {
        lemma_executing_swap_non_executing(workers.drop_last(), i, w);
        assert(updated.drop_last() =~= workers.drop_last().update(i, w));
        assert(updated.last() == workers.last());
    }
}

proof fn lemma_executing_start<J>(workers: Seq<WorkerState<J>>, i: int, g: Ghost<J>)
    requires
        0 <= i < workers.len(),
        !(workers[i] is Executing),
    ensures
        executing_jobs(workers.update(i, WorkerState::Executing(g))) == executing_jobs(
            workers,
        ).insert(g@),
    decreases workers.len(),
{
    let updated = workers.update(i, WorkerState::Executing(g));
    if i == workers.len() - 1 {
        assert(updated.drop_last() =~= workers.drop_last());
    } else {
        lemma_executing_start(workers.drop_last(), i, g);
        assert(updated.drop_last() =~= workers.drop_last().update(
            i,
            WorkerState::Executing(g),
        ));
        assert(updated.last() == workers.last());
    }
}

impl<J> ThreadPool<J> {
    /// How many workers the pool was built with.
    pub closed spec fn size(&self) -> nat {
        self.workers@.len()
    }

    /// The state of each worker, indexed by the worker's id.
    pub closed spec fn worker_states(&self) -> Seq<WorkerState<J>> {
        self.workers@
    }

    /// The jobs submitted but not yet handed to any worker, oldest first.
    pub closed spec fn pending(&self) -> Seq<J> {
        self.queue@
    }

    /// Whether the sending side of the queue is still open.
    pub closed spec fn accepting(&self) -> bool {
        self.accepting
    }

    /// Every job ever accepted by `execute`, in submission order.
    pub closed spec fn submitted(&self) -> Seq<J> {
        self.submitted@
    }

    /// Every job ever handed to a worker, in delivery order.
    pub closed spec fn delivered(&self) -> Seq<J> {
        self.delivered@
    }

    /// Every job a worker has run to completion.
    pub closed spec fn finished(&self) -> Seq<J> {
        self.finished@
    }

    /// Every worker has observed the closed queue and terminated.
    pub open spec fn all_terminated(&self) -> bool {
        forall|i: int|
            0 <= i < self.worker_states().len() ==> self.worker_states()[i] is Terminated
    }

    /// The pool's invariant: the size is fixed and positive; a job is
    /// pending or delivered, never both, and nothing is lost — delivered
    /// jobs followed by pending jobs are exactly the submitted jobs in
    /// order; every delivered job is finished or running right now; a
    /// worker terminates only once the queue is closed, and only when the
    /// queue is empty.
    pub open spec fn well_formed(&self) -> bool {
        &&& self.size() > 0
        &&& self.worker_states().len() == self.size()
        &&& self.delivered() + self.pending() == self.submitted()
        &&& self.finished().to_multiset().add(executing_jobs(self.worker_states()))
            == self.delivered().to_multiset()
        &&& (exists|i: int|
            0 <= i < self.worker_states().len() && self.worker_states()[i] is Terminated)
            ==> !self.accepting()
        &&& self.all_terminated() ==> self.pending().len() == 0
    }

    /// Builds a pool of `size` workers, all idle, with an empty, open
    /// queue. A pool of zero workers cannot be built.
    pub fn new(size: usize) -> (pool: ThreadPool<J>)
        requires
            size > 0,
        ensures
            pool.well_formed(),
            pool.size() == size,
            forall|i: int| 0 <= i < size ==> pool.worker_states()[i] is Idle,
            pool.accepting(),
            pool.pending() == Seq::<J>::empty(),
            pool.submitted() == Seq::<J>::empty(),
            pool.delivered() == Seq::<J>::empty(),
            pool.finished() == Seq::<J>::empty(),
    {
        let mut workers: Vec<WorkerState<J>> = Vec::new();
        let mut id: usize = 0;
        while id < size
            invariant
                id <= size,
                workers@.len() == id,
                forall|i: int| 0 <= i < id ==> workers@[i] is Idle,
            decreases size - id,
        {
            workers.push(WorkerState::Idle);
            id += 1;
        }
        let pool = ThreadPool {
            workers,
            queue: Vec::new(),
            accepting: true,
            submitted: Ghost(Seq::empty()),
            delivered: Ghost(Seq::empty()),
            finished: Ghost(Seq::empty()),
        };
        proof {
            broadcast use vstd::seq_lib::group_to_multiset_ensures;
            broadcast use vstd::multiset::group_multiset_axioms;

            lemma_executing_none(pool.worker_states());
            assert(Seq::<J>::empty().to_multiset() =~= Multiset::<J>::empty());
            assert(pool.delivered() + pool.pending() =~= pool.submitted());
            assert(Multiset::<J>::empty().add(Multiset::<J>::empty()) =~= Multiset::<
                J,
            >::empty());
        }
        pool
    }

    /// Submits a job. While the queue is open the job is appended to the
    /// pending queue and recorded as submitted; once shutdown has begun
    /// the call fails and changes nothing.
    pub fn execute(&mut self, job: J) -> (result: Result<(), PoolClosed>)
        requires
            old(self).well_formed(),
        ensures
            final(self).well_formed(),
            final(self).size() == old(self).size(),
            final(self).accepting() == old(self).accepting(),
            final(self).worker_states() == old(self).worker_states(),
            final(self).delivered() == old(self).delivered(),
            final(self).finished() == old(self).finished(),
            old(self).accepting() ==> result is Ok && final(self).pending() == old(
                self,
            ).pending().push(job) && final(self).submitted() == old(self).submitted().push(job),
            !old(self).accepting() ==> result is Err && *final(self) == *old(self),
    {
        if !self.accepting {
            return Err(PoolClosed);
        }
        let ghost job_ghost = job;
        self.queue.push(job);
        proof {
            self.submitted@ = self.submitted@.push(job_ghost);
        }
        proof {
            assert(self.delivered() + self.pending() =~= self.submitted());
            assert(!(exists|i: int|
                0 <= i < self.worker_states().len()
                    && self.worker_states()[i] is Terminated));
            assert(!self.all_terminated()) by {
                assert(!(self.worker_states()[0] is Terminated));
            }
        }
        Ok(())
    }

    /// Closes the sending side of the queue: the first step of shutdown.
    /// Jobs already pending stay pending; new submissions fail from here
    /// on.
    pub fn close(&mut self)
        requires
            old(self).well_formed(),
        ensures
            final(self).well_formed(),
            !final(self).accepting(),
            final(self).size() == old(self).size(),
            final(self).worker_states() == old(self).worker_states(),
            final(self).pending() == old(self).pending(),
            final(self).submitted() == old(self).submitted(),
            final(self).delivered() == old(self).delivered(),
            final(self).finished() == old(self).finished(),
    {
        self.accepting = false;
    }

    /// One receive attempt by the idle worker with the given id, made once
    /// the attempt has an answer: either the queue holds a job — the
    /// oldest pending job is handed to this worker alone, which starts
    /// executing it — or the queue is closed and empty, and the worker
    /// terminates. While the queue is open and empty the worker simply
    /// stays blocked, and no call is made.
    pub fn take_job(&mut self, worker: usize) -> (job: Option<J>)
        requires
            old(self).well_formed(),
            worker < old(self).size(),
            old(self).worker_states()[worker as int] is Idle,
            old(self).pending().len() > 0 || !old(self).accepting(),
        ensures
            final(self).well_formed(),
            final(self).size() == old(self).size(),
            final(self).accepting() == old(self).accepting(),
            final(self).submitted() == old(self).submitted(),
            final(self).finished() == old(self).finished(),
            final(self).worker_states().len() == old(self).worker_states().len(),
            forall|i: int|
                0 <= i < old(self).worker_states().len() && i != worker
                    ==> final(self).worker_states()[i] == old(self).worker_states()[i],
            old(self).pending().len() > 0 ==> job == Some(old(self).pending()[0])
                && final(self).pending() == old(self).pending().drop_first()
                && final(self).delivered() == old(self).delivered().push(old(self).pending()[0])
                && (final(self).worker_states()[worker as int] matches WorkerState::Executing(g)
                    && g@ == old(self).pending()[0]),
            old(self).pending().len() == 0 ==> job is None
                && final(self).pending() == old(self).pending()
                && final(self).delivered() == old(self).delivered()
                && final(self).worker_states()[worker as int] is Terminated,
    {
        broadcast use vstd::seq_lib::group_to_multiset_ensures;
        broadcast use vstd::multiset::group_multiset_axioms;

        if self.queue.len() > 0 {
            let job = self.queue.remove(0);
            let ghost job_ghost = job;
            let ghost old_workers = self.workers@;
            self.workers.set(worker, WorkerState::Executing(Ghost(job_ghost)));
            proof {
                self.delivered@ = self.delivered@.push(job_ghost);
                lemma_executing_start(old_workers, worker as int, Ghost(job_ghost));
                assert(self.delivered() + self.pending() =~= self.submitted());
                assert(self.finished().to_multiset().add(
                    executing_jobs(self.worker_states()),
                ) =~= self.delivered().to_multiset());
                assert(!self.all_terminated()) by {
                    assert(self.worker_states()[worker as int] is Executing);
                }
                assert forall|i: int|
                    0 <= i < self.worker_states().len()
                        && self.worker_states()[i] is Terminated implies !self.accepting() by {
                    assert(old_workers[i] is Terminated);
                }
            }
            Some(job)
        } else {
            let ghost old_workers = self.workers@;
            self.workers.set(worker, WorkerState::Terminated);
            proof {
                lemma_executing_swap_non_executing(
                    old_workers,
                    worker as int,
                    WorkerState::Terminated,
                );
            }
            None
        }
    }

    /// The worker with the given id finishes the job it was executing and
    /// goes back to waiting for the next one.
    pub fn finish_job(&mut self, worker: usize)
        requires
            old(self).well_formed(),
            worker < old(self).size(),
            old(self).worker_states()[worker as int] is Executing,
        ensures
            final(self).well_formed(),
            final(self).size() == old(self).size(),
            final(self).accepting() == old(self).accepting(),
            final(self).pending() == old(self).pending(),
            final(self).submitted() == old(self).submitted(),
            final(self).delivered() == old(self).delivered(),
            final(self).worker_states() == old(self).worker_states().update(
                worker as int,
                WorkerState::<J>::Idle,
            ),
            old(self).worker_states()[worker as int] matches WorkerState::Executing(g)
                ==> final(self).finished() == old(self).finished().push(g@),
    {
        broadcast use vstd::seq_lib::group_to_multiset_ensures;
        broadcast use vstd::multiset::group_multiset_axioms;

        let ghost old_workers = self.workers@;
        let ghost job_ghost = old_workers[worker as int]->Executing_0@;
        self.workers.set(worker, WorkerState::Idle);
        proof {
            self.finished@ = self.finished@.push(job_ghost);
            let base = self.workers@;
            lemma_executing_start(base, worker as int, Ghost(job_ghost));
            assert(base.update(worker as int, WorkerState::Executing(Ghost(job_ghost)))
                =~= old_workers);
            assert(executing_jobs(old_workers) == executing_jobs(base).insert(job_ghost));
            assert(self.finished().to_multiset().add(executing_jobs(base)) =~= self.delivered().to_multiset());
            assert forall|i: int|
                0 <= i < self.worker_states().len()
                    && self.worker_states()[i] is Terminated implies !self.accepting() by {
                assert(old_workers[i] is Terminated);
            }
            assert(self.all_terminated() ==> self.pending().len() == 0) by {
                if self.all_terminated() {
                    assert(self.worker_states()[worker as int] is Terminated);
                }
            }
        }
    }
}

impl<J> ThreadPool<J> {
    /// How many workers the pool was built with.
    pub fn worker_count(&self) -> (n: usize)
        ensures
            n == self.size(),
    {
        self.workers.len()
    }

    /// How many submitted jobs no worker has taken yet.
    pub fn pending_count(&self) -> (n: usize)
        ensures
            n == self.pending().len(),
    {
        self.queue.len()
    }

    /// Whether the sending side of the queue is still open.
    pub fn is_accepting(&self) -> (open: bool)
        ensures
            open == self.accepting(),
    {
        self.accepting
    }

    /// Whether the worker with the given id is waiting for a job.
    pub fn worker_is_idle(&self, worker: usize) -> (idle: bool)
        requires
            worker < self.size(),
        ensures
            idle == (self.worker_states()[worker as int] is Idle),
    {
        match self.workers[worker] {
            WorkerState::Idle => true,
            _ => false,
        }
    }

    /// Whether the worker with the given id is running a job right now.
    pub fn worker_is_executing(&self, worker: usize) -> (executing: bool)
        requires
            worker < self.size(),
        ensures
            executing == (self.worker_states()[worker as int] is Executing),
    {
        match self.workers[worker] {
            WorkerState::Executing(_) => true,
            _ => false,
        }
    }

    /// Whether the worker with the given id has terminated.
    pub fn worker_is_terminated(&self, worker: usize) -> (terminated: bool)
        requires
            worker < self.size(),
        ensures
            terminated == (self.worker_states()[worker as int] is Terminated),
    {
        match self.workers[worker] {
            WorkerState::Terminated => true,
            _ => false,
        }
    }
}

proof fn lemma_executing_bounded<J>(workers: Seq<WorkerState<J>>)
    ensures
        executing_jobs(workers).len() <= workers.len(),
    decreases workers.len(),
{
    broadcast use vstd::multiset::group_multiset_axioms;

    if workers.len() > 0 {
        lemma_executing_bounded(workers.drop_last());
    }
}

/// The pool's concurrency is bounded by its size: at any instant at most
/// as many jobs are being executed as there are workers; further jobs
/// wait in the queue until a worker is free.
pub proof fn lemma_bounded_concurrency<J>(pool: &ThreadPool<J>)
    requires
        pool.well_formed(),
    ensures
        executing_jobs(pool.worker_states()).len() <= pool.size(),
{
    lemma_executing_bounded(pool.worker_states());
}

/// Jobs are conserved: what was handed to workers, followed by what still
/// waits in the queue, is exactly what was submitted, in submission order.
/// In particular no job is delivered twice and none is skipped.
pub proof fn lemma_jobs_conserved<J>(pool: &ThreadPool<J>)
    requires
        pool.well_formed(),
    ensures
        pool.delivered() + pool.pending() == pool.submitted(),
        pool.delivered() == pool.submitted().take(pool.delivered().len() as int),
        pool.delivered().to_multiset().add(pool.pending().to_multiset())
            == pool.submitted().to_multiset(),
{
    vstd::seq_lib::lemma_multiset_commutative(pool.delivered(), pool.pending());
    assert(pool.submitted().take(pool.delivered().len() as int) =~= pool.delivered());
}

/// Once every worker has terminated, the queue is empty and every job
/// ever submitted has been run to completion by some worker, exactly
/// once: the finished jobs are a rearrangement of the submitted ones.
pub proof fn lemma_shutdown_drained<J>(pool: &ThreadPool<J>)
    requires
        pool.well_formed(),
        pool.all_terminated(),
    ensures
        pool.pending().len() == 0,
        pool.delivered() == pool.submitted(),
        pool.finished().to_multiset() == pool.submitted().to_multiset(),
        pool.finished().len() == pool.submitted().len(),
{
    broadcast use vstd::seq_lib::group_to_multiset_ensures;
    broadcast use vstd::multiset::group_multiset_axioms;

    assert(pool.delivered() =~= pool.delivered() + pool.pending());
    lemma_executing_none(pool.worker_states());
    assert(pool.finished().to_multiset().add(Multiset::<J>::empty()) =~= pool.finished().to_multiset());
    assert(pool.finished().len() == pool.finished().to_multiset().len());
    assert(pool.submitted().len() == pool.submitted().to_multiset().len());
}

} // verus!
