//! A fixed-size worker pool with a closeable FIFO job queue.
//!
//! The pool is modelled as an explicit state machine: every hand-off that
//! the running system performs (a submission, one worker taking and running
//! one job, the shutdown barrier) is a verified transition here. A host
//! program runs the transitions from real threads; the contracts below pin
//! down what each transition does to the queue, the workers and the
//! delivery log.

use vstd::prelude::*;

verus! {

/// The errors a pool can report.
///
/// `InvalidConfiguration` is fatal to a construction attempt only;
/// `PoolClosed` tells a submitter that teardown has begun; `WorkerFailure`
/// surfaces at shutdown when a job ended its worker abnormally.
#[derive(Debug, Clone, Copy, PartialEq, Eq, Structural)]
pub enum PoolError {
    InvalidConfiguration,
    PoolClosed,
    WorkerFailure,
}

/// What one `take` on the queue yields.
///
/// `WouldBlock` stands for the running system's blocking wait: the queue is
/// empty but not closed, so a real worker would suspend until a job or the
/// closed signal arrives.
#[derive(Debug, PartialEq, Eq)]
pub enum TakeResult<J> {
    Taken(J),
    ClosedSignal,
    WouldBlock,
}

/// An ordered, closeable, multi-producer hand-off queue of jobs.
///
/// Jobs come out in the order they went in. Once closed the queue refuses
/// new jobs and, when drained, answers every `take` with the closed signal;
/// it can never be reopened.
pub struct JobQueue<J> {
    items: Vec<J>,
    closed: bool,
}

impl<J> JobQueue<J> {
    /// The jobs currently waiting, oldest first.
    pub closed spec fn pending(&self) -> Seq<J> {
        self.items@
    }

    /// Whether the queue has been closed.
    pub closed spec fn is_closed(&self) -> bool {
        self.closed
    }

    /// An open, empty queue.
    pub fn new() -> (q: Self)
        ensures
            q.pending() == Seq::<J>::empty(),
            !q.is_closed(),
    {
        JobQueue { items: Vec::new(), closed: false }
    }

    /// Inserts a job for later consumption; never blocks. Fails exactly
    /// when the queue has already been closed, handing the job back.
    pub fn push(&mut self, job: J) -> (r: Result<(), J>)
        ensures
            old(self).is_closed() ==> r == Result::<(), J>::Err(job) && *final(self) == *old(self),
            !old(self).is_closed() ==> r == Result::<(), J>::Ok(())
                && final(self).pending() == old(self).pending().push(job)
                && !final(self).is_closed(),
    {
        if self.closed {
            Err(job)
        } else {
            self.items.push(job);
            Ok(())
        }
    }

    /// Removes and returns the oldest job, or reports why none came out:
    /// the closed signal once the queue is closed and drained, otherwise
    /// the caller would block.
    pub fn take(&mut self) -> (r: TakeResult<J>)
        ensures
            old(self).pending().len() > 0 ==> r == TakeResult::Taken(old(self).pending()[0])
                && final(self).pending() == old(self).pending().drop_first()
                && final(self).is_closed() == old(self).is_closed(),
            old(self).pending().len() == 0 && old(self).is_closed() ==> r
                == TakeResult::<J>::ClosedSignal && *final(self) == *old(self),
            old(self).pending().len() == 0 && !old(self).is_closed() ==> r
                == TakeResult::<J>::WouldBlock && *final(self) == *old(self),
    {
        if self.items.len() > 0 {
            let job = self.items.remove(0);
            TakeResult::Taken(job)
        } else if self.closed {
            TakeResult::ClosedSignal
        } else {
            TakeResult::WouldBlock
        }
    }

    /// How many jobs are waiting.
    pub fn len(&self) -> (r: usize)
        ensures
            r as int == self.pending().len(),
    {
        self.items.len()
    }

    /// Closes the queue: pending jobs stay available, new ones are refused.
    /// Idempotent; there is no way back to the open state.
    pub fn close(&mut self)
        ensures
            final(self).pending() == old(self).pending(),
            final(self).is_closed(),
    {
        self.closed = true;
    }
}

/// Where the pool stands in its lifecycle. Submission is allowed only in
/// `Active`; there is no way back from `ShuttingDown` or `Closed`.
#[derive(Debug, Clone, Copy, PartialEq, Eq, Structural)]
pub enum PoolPhase {
    Active,
    ShuttingDown,
    Closed,
}

/// Where one worker stands. A worker leaves `Running` either cleanly, by
/// seeing the closed signal (`Terminated`), or abnormally, because a job
/// faulted (`Failed`).
#[derive(Debug, Clone, Copy, PartialEq, Eq, Structural)]
pub enum WorkerPhase {
    Running,
    Terminated,
    Failed,
}

/// How one job's execution ended.
#[derive(Debug, Clone, Copy, PartialEq, Eq, Structural)]
pub enum JobOutcome {
    Completed,
    Faulted,
}

/// One entry of the pool's delivery log: which worker took which job off
/// the queue, and how running it ended.
#[derive(Debug, Clone, Copy, PartialEq, Eq, Structural)]
pub struct Delivery {
    pub worker: usize,
    pub job: u64,
    pub outcome: JobOutcome,
}

/// What one call of [`Pool::worker_step`] amounted to.
#[derive(Debug, Clone, Copy, PartialEq, Eq, Structural)]
pub enum StepEvent {
    /// The worker took this job and ran it to completion.
    Ran(u64),
    /// The worker took this job; running it ended the worker abnormally.
    Faulted(u64),
    /// The worker saw the closed signal and terminated cleanly.
    Exited,
    /// The queue is empty but still open: the worker keeps waiting.
    Parked,
}

/// A fixed-size worker pool, modelled as a state machine.
///
/// Jobs are identified by the number of the submission that created them:
/// the `k`-th successful [`submit`](Pool::submit) returns job id `k`. The pool
/// records every hand-off in a delivery log, which is what the lifecycle
/// guarantees are stated over: ids enter the queue in submission order,
/// leave it in the same order, and each id is delivered exactly once.
///
/// A host program maps ids to real work: it keeps the job bodies beside the
/// pool, runs [`worker_step`](Pool::worker_step) from its worker threads,
/// and performs the returned event's work outside the model.
pub struct Pool {
    size: usize,
    phase: PoolPhase,
    queue: JobQueue<u64>,
    workers: Vec<WorkerPhase>,
    submitted: u64,
    log: Vec<Delivery>,
}

impl Pool {
    /// The fixed number of workers, chosen at construction.
    pub closed spec fn size(&self) -> usize {
        self.size
    }

    /// The pool's place in its lifecycle.
    pub closed spec fn phase(&self) -> PoolPhase {
        self.phase
    }

    /// The job ids waiting in the queue, oldest first.
    pub closed spec fn pending(&self) -> Seq<u64> {
        self.queue.pending()
    }

    /// Whether the job queue has been closed.
    pub closed spec fn queue_closed(&self) -> bool {
        self.queue.is_closed()
    }

    /// How many jobs have been accepted so far; also the next job id.
    pub closed spec fn submitted(&self) -> u64 {
        self.submitted
    }

    /// The phases of the workers, indexed by worker id.
    pub closed spec fn workers(&self) -> Seq<WorkerPhase> {
        self.workers@
    }

    /// The phase of worker `w`.
    #[verifier::inline]
    pub open spec fn worker(&self, w: int) -> WorkerPhase {
        self.workers()[w]
    }

    /// Every hand-off so far, in the order the jobs left the queue.
    pub closed spec fn log(&self) -> Seq<Delivery> {
        self.log@
    }

    /// Job `id` was taken by some worker and ran to completion.
    pub open spec fn job_completed(&self, id: u64) -> bool {
        exists|i: int|
            0 <= i < self.log().len() && (#[trigger] self.log()[i]).job == id
                && self.log()[i].outcome == JobOutcome::Completed
    }

    /// Job `id` was taken by some worker and ended that worker abnormally.
    pub open spec fn job_faulted(&self, id: u64) -> bool {
        exists|i: int|
            0 <= i < self.log().len() && (#[trigger] self.log()[i]).job == id
                && self.log()[i].outcome == JobOutcome::Faulted
    }

    /// The pool's invariant. Constructors establish it and every transition
    /// preserves it; all lifecycle guarantees are consequences of it.
    pub closed spec fn wf(&self) -> bool {
        // one worker record per worker, and at least one worker
        &&& self.workers@.len() == self.size
        &&& self.size >= 1
        // every accepted job is either delivered or still queued
        &&& self.log@.len() + self.queue.pending().len() == self.submitted as int
        // the queue holds exactly the not-yet-delivered ids, in order
        &&& forall|i: int|
            0 <= i < self.queue.pending().len() ==> (#[trigger] self.queue.pending()[i]) as int
                == self.log@.len() + i
        // jobs leave the queue in submission order, one delivery each
        &&& forall|i: int|
            0 <= i < self.log@.len() ==> (#[trigger] self.log@[i]).job as int == i
                && self.log@[i].worker < self.size
        // submission is open exactly while the queue is
        &&& (self.phase == PoolPhase::Active <==> !self.queue.is_closed())
        // a worker terminates cleanly only once the queue is closed and drained
        &&& forall|w: int|
            0 <= w < self.workers@.len() && (#[trigger] self.workers@[w])
                == WorkerPhase::Terminated ==> self.queue.is_closed()
                && self.queue.pending().len() == 0
        // a fault in the log belongs to a worker that is marked failed
        &&& forall|i: int|
            0 <= i < self.log@.len() && (#[trigger] self.log@[i]).outcome == JobOutcome::Faulted
                ==> self.workers@[self.log@[i].worker as int] == WorkerPhase::Failed
    }

    /// Creates a pool of `size` workers, all running, with an open, empty
    /// queue. A size of zero is an invalid configuration and is refused
    /// outright: nothing is created.
    pub fn new(size: usize) -> (r: Result<Pool, PoolError>)
        ensures
            size == 0 ==> r == Result::<Pool, PoolError>::Err(PoolError::InvalidConfiguration),
            size > 0 ==> (r matches Ok(p) && p.wf() && p.size() == size && p.workers().len()
                == size && p.phase()
                == PoolPhase::Active && p.submitted() == 0 && p.pending() == Seq::<u64>::empty()
                && p.log() == Seq::<Delivery>::empty() && forall|w: int|
                0 <= w < size ==> p.worker(w) == WorkerPhase::Running),
    {
        if size == 0 {
            return Err(PoolError::InvalidConfiguration);
        }
        let mut workers: Vec<WorkerPhase> = Vec::new();
        let mut i: usize = 0;
        while i < size
            invariant
                i <= size,
                workers@.len() == i,
                forall|w: int| 0 <= w < i ==> workers@[w] == WorkerPhase::Running,
            decreases size - i,
        {
            workers.push(WorkerPhase::Running);
            i = i + 1;
        }
        Ok(
            Pool {
                size,
                phase: PoolPhase::Active,
                queue: JobQueue::new(),
                workers,
                submitted: 0,
                log: Vec::new(),
            },
        )
    }

    /// Accepts one job while the pool is active, handing back its id; the
    /// job goes to the back of the queue and the submission counter moves.
    /// Once teardown has begun the call fails with `PoolClosed` and changes
    /// nothing at all.
    pub fn submit(&mut self) -> (r: Result<u64, PoolError>)
        requires
            old(self).wf(),
            old(self).submitted() < u64::MAX,
        ensures
            final(self).wf(),
            old(self).phase() != PoolPhase::Active ==> r == Result::<u64, PoolError>::Err(
                PoolError::PoolClosed,
            ) && *final(self) == *old(self),
            old(self).phase() == PoolPhase::Active ==> r == Result::<u64, PoolError>::Ok(
                old(self).submitted(),
            ) && final(self).submitted() == old(self).submitted() + 1 && final(self).pending()
                == old(self).pending().push(old(self).submitted()) && final(self).log() == old(
                self,
            ).log() && final(self).phase() == PoolPhase::Active && final(self).workers() == old(
                self,
            ).workers() && final(self).size() == old(self).size(),
    {
        match self.phase {
            PoolPhase::Active => {
                let id = self.submitted;
                match self.queue.push(id) {
                    Ok(()) => {
                        self.submitted = self.submitted + 1;
                        Ok(id)
                    },
                    Err(_) => {
                        // an active pool's queue is open, so the push cannot
                        // be refused
                        proof {
                            assert(false);
                        }
                        Err(PoolError::PoolClosed)
                    },
                }
            },
            _ => Err(PoolError::PoolClosed),
        }
    }

    /// Begins teardown: consumes the right to submit and closes the queue,
    /// so that workers drain what is left and then see the closed signal.
    /// Safe to call at any point; after the first call it changes nothing.
    pub fn begin_shutdown(&mut self)
        requires
            old(self).wf(),
        ensures
            final(self).wf(),
            final(self).phase() == (if old(self).phase() == PoolPhase::Closed {
                PoolPhase::Closed
            } else {
                PoolPhase::ShuttingDown
            }),
            final(self).queue_closed(),
            final(self).pending() == old(self).pending(),
            final(self).log() == old(self).log(),
            final(self).workers() == old(self).workers(),
            final(self).submitted() == old(self).submitted(),
            final(self).size() == old(self).size(),
    {
        match self.phase {
            PoolPhase::Active => {
                self.queue.close();
                self.phase = PoolPhase::ShuttingDown;
            },
            _ => {},
        }
    }

    /// One turn of worker `wid`'s loop: take once from the queue and, if a
    /// job came out, run it. The caller reports how running the job ended
    /// through `outcome`; it is ignored when no job was taken.
    ///
    /// A taken job is logged whatever its outcome; a fault ends this worker
    /// and no other, and leaves the queue intact for the rest. The closed
    /// signal, seen only once the queue is closed and drained, terminates
    /// the worker cleanly. On an empty, still-open queue the worker parks
    /// and nothing changes.
    pub fn worker_step(&mut self, wid: usize, outcome: JobOutcome) -> (r: StepEvent)
        requires
            old(self).wf(),
            wid < old(self).size(),
            old(self).worker(wid as int) == WorkerPhase::Running,
        ensures
            final(self).wf(),
            final(self).phase() == old(self).phase(),
            final(self).size() == old(self).size(),
            final(self).submitted() == old(self).submitted(),
            final(self).queue_closed() == old(self).queue_closed(),
            old(self).pending().len() > 0 ==> {
                let job = old(self).pending()[0];
                &&& final(self).pending() == old(self).pending().drop_first()
                &&& final(self).log() == old(self).log().push(
                    Delivery { worker: wid, job, outcome },
                )
                &&& (outcome == JobOutcome::Completed ==> r == StepEvent::Ran(job)
                    && final(self).workers() == old(self).workers())
                &&& (outcome == JobOutcome::Faulted ==> r == StepEvent::Faulted(job)
                    && final(self).workers() == old(self).workers().update(
                    wid as int,
                    WorkerPhase::Failed,
                ))
            },
            old(self).pending().len() == 0 && old(self).queue_closed() ==> r == StepEvent::Exited
                && final(self).pending() == old(self).pending() && final(self).log() == old(
                self,
            ).log() && final(self).workers() == old(self).workers().update(
                wid as int,
                WorkerPhase::Terminated,
            ),
            old(self).pending().len() == 0 && !old(self).queue_closed() ==> r == StepEvent::Parked
                && *final(self) == *old(self),
    {
        match self.queue.take() {
            TakeResult::Taken(job) => {
                self.log.push(Delivery { worker: wid, job, outcome });
                match outcome {
                    JobOutcome::Completed => StepEvent::Ran(job),
                    JobOutcome::Faulted => {
                        self.workers.set(wid, WorkerPhase::Failed);
                        StepEvent::Faulted(job)
                    },
                }
            },
            TakeResult::ClosedSignal => {
                self.workers.set(wid, WorkerPhase::Terminated);
                StepEvent::Exited
            },
            TakeResult::WouldBlock => StepEvent::Parked,
        }
    }

    /// Completes teardown once every worker has left its loop: marks the
    /// pool closed and reports how the workers went. The report is `Ok`
    /// exactly when every worker terminated cleanly, and surfaces
    /// `WorkerFailure` exactly when some job ended its worker abnormally —
    /// an abnormal end is never swallowed.
    ///
    /// A clean report is the "all accepted work is done" guarantee: the
    /// delivery log then holds every submitted job id, in submission order,
    /// each run to completion exactly once.
    pub fn finish_shutdown(&mut self) -> (r: Result<(), PoolError>)
        requires
            old(self).wf(),
            old(self).phase() == PoolPhase::ShuttingDown,
            forall|w: int|
                0 <= w < old(self).size() ==> old(self).worker(w) != WorkerPhase::Running,
        ensures
            final(self).wf(),
            final(self).phase() == PoolPhase::Closed,
            final(self).pending() == old(self).pending(),
            final(self).log() == old(self).log(),
            final(self).workers() == old(self).workers(),
            final(self).submitted() == old(self).submitted(),
            final(self).size() == old(self).size(),
            r == Result::<(), PoolError>::Ok(()) <==> forall|w: int|
                0 <= w < old(self).size() ==> old(self).worker(w) == WorkerPhase::Terminated,
            r == Result::<(), PoolError>::Err(PoolError::WorkerFailure) <==> exists|w: int|
                0 <= w < old(self).size() && old(self).worker(w) == WorkerPhase::Failed,
            r == Result::<(), PoolError>::Ok(()) ==> final(self).pending().len() == 0
                && final(self).log().len() == final(self).submitted() && forall|i: int|
                0 <= i < final(self).log().len() ==> (#[trigger] final(self).log()[i]).job as int
                    == i && final(self).log()[i].outcome == JobOutcome::Completed,
    {
        self.phase = PoolPhase::Closed;
        let mut failed = false;
        let mut w: usize = 0;
        while w < self.size
            invariant
                w <= self.size,
                self.workers@.len() == self.size,
                self.size == old(self).size(),
                self.workers@ == old(self).workers(),
                self.log@ == old(self).log(),
                self.queue == old(self).queue,
                self.submitted == old(self).submitted(),
                self.phase == PoolPhase::Closed,
                failed <==> exists|i: int|
                    0 <= i < w && self.workers@[i] == WorkerPhase::Failed,
            decreases self.size - w,
        {
            match self.workers[w] {
                WorkerPhase::Failed => {
                    failed = true;
                },
                _ => {},
            }
            w = w + 1;
        }
        if failed {
            proof {
                let i0 = choose|i: int|
                    0 <= i < self.size && self.workers@[i] == WorkerPhase::Failed;
                assert(old(self).worker(i0) == WorkerPhase::Failed);
            }
            Err(PoolError::WorkerFailure)
        } else {
            proof {
                // no worker failed and none is still running, so every
                // worker terminated cleanly; the queue must be drained and
                // every delivery in the log completed
                assert forall|w: int| 0 <= w < old(self).size() implies old(self).worker(w)
                    == WorkerPhase::Terminated by {
                    assert(old(self).worker(w) == self.workers@[w]);
                    assert(old(self).worker(w) != WorkerPhase::Running);
                    if self.workers@[w] == WorkerPhase::Failed {
                        assert(exists|i: int|
                            0 <= i < self.size && self.workers@[i] == WorkerPhase::Failed);
                        assert(false);
                    }
                }
                assert(self.worker(0) == old(self).worker(0));
                assert(self.worker(0) == WorkerPhase::Terminated);
                assert forall|i: int|
                    0 <= i < self.log().len() implies (#[trigger] self.log()[i]).outcome
                    == JobOutcome::Completed by {
                    if self.log()[i].outcome == JobOutcome::Faulted {
                        assert(self.workers@[self.log()[i].worker as int] == WorkerPhase::Failed);
                        assert(old(self).worker(self.log()[i].worker as int)
                            == WorkerPhase::Failed);
                        assert(false);
                    }
                }
            }
            Ok(())
        }
    }

    /// Graceful teardown as one blocking barrier: closes the queue, lets
    /// the still-running workers drain every queued job to completion,
    /// joins them in worker-index order, and only then reports.
    ///
    /// In the running system the draining happens on the worker threads and
    /// this call merely waits for them; here the wait and the drain are the
    /// same loop, so the contract can say what the barrier guarantees: as
    /// long as one worker was still running — or nothing was queued — every
    /// accepted job has been delivered by the time this returns. The report
    /// is `Ok` exactly when no worker ever failed; a failure is surfaced as
    /// `WorkerFailure`, never swallowed, and still lets every other worker
    /// drain and terminate.
    pub fn shutdown(&mut self) -> (r: Result<(), PoolError>)
        requires
            old(self).wf(),
            old(self).phase() != PoolPhase::Closed,
        ensures
            final(self).wf(),
            final(self).phase() == PoolPhase::Closed,
            final(self).submitted() == old(self).submitted(),
            final(self).size() == old(self).size(),
            final(self).workers().len() == old(self).workers().len(),
            // every worker ends where its past put it: a clean exit for the
            // running, no resurrection for the failed
            forall|w: int|
                0 <= w < old(self).size() ==> final(self).worker(w) == (if old(self).worker(w)
                    == WorkerPhase::Running {
                    WorkerPhase::Terminated
                } else {
                    old(self).worker(w)
                }),
            // the barrier: with a live worker (or an empty queue) nothing
            // accepted is left behind
            ((exists|w: int|
                0 <= w < old(self).size() && old(self).worker(w) == WorkerPhase::Running) || old(
                self,
            ).pending().len() == 0) ==> final(self).pending().len() == 0 && final(self).log().len()
                == final(self).submitted(),
            // failures decide the report, and only failures
            r == Result::<(), PoolError>::Ok(()) <==> forall|w: int|
                0 <= w < old(self).size() ==> old(self).worker(w) != WorkerPhase::Failed,
            r == Result::<(), PoolError>::Err(PoolError::WorkerFailure) <==> exists|w: int|
                0 <= w < old(self).size() && old(self).worker(w) == WorkerPhase::Failed,
            // a clean report means: all accepted work was run to completion,
            // in submission order, exactly once
            r == Result::<(), PoolError>::Ok(()) ==> final(self).log().len()
                == final(self).submitted() && forall|i: int|
                0 <= i < final(self).log().len() ==> (#[trigger] final(self).log()[i]).job as int
                    == i && final(self).log()[i].outcome == JobOutcome::Completed,
            // so a job counter reads exactly the number of submissions
            r == Result::<(), PoolError>::Ok(()) ==> count_completed(final(self).log())
                == final(self).submitted(),
    {
        self.begin_shutdown();
        let ghost prior = *self;
        let mut w: usize = 0;
        while w < self.size
            invariant
                self.wf(),
                w <= self.size,
                self.phase == PoolPhase::ShuttingDown,
                self.queue.is_closed(),
                self.size == prior.size(),
                self.submitted == prior.submitted(),
                self.workers@.len() == self.size,
                prior.workers().len() == self.size,
                forall|i: int|
                    0 <= i < self.size ==> #[trigger] self.workers@[i] == (if i < w
                        && prior.worker(i) == WorkerPhase::Running {
                        WorkerPhase::Terminated
                    } else {
                        prior.worker(i)
                    }),
                self.queue.pending().len() <= prior.pending().len(),
                (exists|i: int|
                    0 <= i < w && prior.worker(i) == WorkerPhase::Running)
                    ==> self.queue.pending().len() == 0,
            decreases self.size - w,
        {
            let phase_now = self.workers[w];
            match phase_now {
                WorkerPhase::Running => {
                    loop
                        invariant_except_break
                            self.workers@[w as int] == WorkerPhase::Running,
                        invariant
                            self.wf(),
                            w < self.size,
                            self.phase == PoolPhase::ShuttingDown,
                            self.queue.is_closed(),
                            self.size == prior.size(),
                            self.submitted == prior.submitted(),
                            self.workers@.len() == self.size,
                            prior.workers().len() == self.size,
                            forall|i: int|
                                0 <= i < self.size && i != w ==> #[trigger] self.workers@[i] == (
                                if i < w && prior.worker(i) == WorkerPhase::Running {
                                    WorkerPhase::Terminated
                                } else {
                                    prior.worker(i)
                                }),
                            prior.worker(w as int) == WorkerPhase::Running,
                            self.queue.pending().len() <= prior.pending().len(),
                        ensures
                            self.workers@[w as int] == WorkerPhase::Terminated,
                            self.queue.pending().len() == 0,
                        decreases self.queue.pending().len(),
                    {
                        match self.worker_step(w, JobOutcome::Completed) {
                            StepEvent::Exited => {
                                break;
                            },
                            _ => {},
                        }
                    }
                },
                _ => {},
            }
            w = w + 1;
        }
        proof {
            assert(prior.workers() == old(self).workers());
            assert(prior.pending() == old(self).pending());
        }
        let ghost mid = *self;
        let r = self.finish_shutdown();
        proof {
            assert forall|i: int| 0 <= i < old(self).size() implies mid.worker(i) == (if old(
                self,
            ).worker(i) == WorkerPhase::Running {
                WorkerPhase::Terminated
            } else {
                old(self).worker(i)
            }) by {
                assert(mid.workers()[i] == mid.workers@[i]);
            }
            if forall|i: int|
                0 <= i < old(self).size() ==> old(self).worker(i) != WorkerPhase::Failed {
                assert forall|i: int| 0 <= i < mid.size() implies mid.worker(i)
                    == WorkerPhase::Terminated by {
                    assert(old(self).worker(i) != WorkerPhase::Failed);
                }
            } else {
                let w0 = choose|i: int|
                    0 <= i < old(self).size() && old(self).worker(i) == WorkerPhase::Failed;
                assert(mid.worker(w0) == WorkerPhase::Failed);
                assert(exists|i: int|
                    0 <= i < mid.size() && mid.worker(i) == WorkerPhase::Failed);
            }
            if (exists|i: int|
                0 <= i < old(self).size() && old(self).worker(i) == WorkerPhase::Running) {
                let w1 = choose|i: int|
                    0 <= i < old(self).size() && old(self).worker(i) == WorkerPhase::Running;
                assert(prior.worker(w1) == WorkerPhase::Running);
                assert(mid.pending().len() == 0);
            }
            if r == Result::<(), PoolError>::Ok(()) {
                lemma_count_completed_all(self.log());
            }
        }
        r
    }

    /// The fixed number of workers.
    pub fn worker_count(&self) -> (r: usize)
        ensures
            r == self.size(),
    {
        self.size
    }

    /// How many jobs have been accepted so far.
    pub fn submitted_count(&self) -> (r: u64)
        ensures
            r == self.submitted(),
    {
        self.submitted
    }

    /// How many accepted jobs are still waiting in the queue.
    pub fn pending_count(&self) -> (r: usize)
        ensures
            r as int == self.pending().len(),
    {
        self.queue.len()
    }

    /// Whether submission is still open.
    pub fn is_active(&self) -> (r: bool)
        ensures
            r == (self.phase() == PoolPhase::Active),
    {
        match self.phase {
            PoolPhase::Active => true,
            _ => false,
        }
    }

    /// The phase of worker `wid`.
    pub fn worker_phase(&self, wid: usize) -> (r: WorkerPhase)
        requires
            wid < self.workers().len(),
        ensures
            r == self.worker(wid as int),
    {
        self.workers[wid]
    }

    /// How many deliveries ran to completion.
    pub fn completed_count(&self) -> (r: usize)
        ensures
            r as int == count_completed(self.log()),
    {
        let mut n: usize = 0;
        let mut i: usize = 0;
        proof {
            lemma_count_completed_bounds(self.log());
        }
        while i < self.log.len()
            invariant
                i <= self.log@.len(),
                n as int == count_completed(self.log@.subrange(0, i as int)),
                n <= i,
            decreases self.log@.len() - i,
        {
            proof {
                assert(self.log@.subrange(0, i + 1 as int).drop_last() == self.log@.subrange(
                    0,
                    i as int,
                ));
                lemma_count_completed_bounds(self.log@.subrange(0, i as int));
            }
            match self.log[i].outcome {
                JobOutcome::Completed => {
                    n = n + 1;
                },
                _ => {},
            }
            i = i + 1;
        }
        proof {
            assert(self.log@.subrange(0, self.log@.len() as int) == self.log@);
        }
        n
    }
}

/// How many of these deliveries ran to completion.
pub open spec fn count_completed(s: Seq<Delivery>) -> int
    decreases s.len(),
{
    if s.len() == 0 {
        0
    } else {
        count_completed(s.drop_last()) + if s.last().outcome == JobOutcome::Completed {
            1int
        } else {
            0int
        }
    }
}

/// The completed deliveries never outnumber the deliveries.
pub proof fn lemma_count_completed_bounds(s: Seq<Delivery>)
    ensures
        0 <= count_completed(s) <= s.len(),
    decreases s.len(),
{
    if s.len() > 0 {
        lemma_count_completed_bounds(s.drop_last());
    }
}

/// When every delivery in the log completed, the completed count is the
/// whole log.
pub proof fn lemma_count_completed_all(s: Seq<Delivery>)
    requires
        forall|i: int| 0 <= i < s.len() ==> (#[trigger] s[i]).outcome == JobOutcome::Completed,
    ensures
        count_completed(s) == s.len(),
    decreases s.len(),
{
    if s.len() > 0 {
        lemma_count_completed_all(s.drop_last());
    }
}

/// Law: jobs are delivered in submission order, and none is delivered
/// twice. Whichever worker takes them, the queue hands out ids in the exact
/// order `submit` assigned them, so any two deliveries are of distinct
/// jobs and earlier deliveries carry smaller ids.
pub proof fn lemma_delivery_order(p: Pool)
    requires
        p.wf(),
    ensures
        forall|i: int, j: int|
            0 <= i < j < p.log().len() ==> (#[trigger] p.log()[i]).job < (#[trigger] p.log()[j]).job,
        forall|i: int| 0 <= i < p.log().len() ==> (#[trigger] p.log()[i]).job < p.submitted(),
{
}

/// Law: nothing accepted is lost silently. Once the queue is drained,
/// every accepted job was either run to completion by some worker or is
/// the one job whose fault ended a worker — and any fault leaves a worker
/// marked failed for shutdown to report.
pub proof fn lemma_no_silent_loss(p: Pool)
    requires
        p.wf(),
        p.pending().len() == 0,
    ensures
        forall|id: u64| id < p.submitted() ==> p.job_completed(id) || p.job_faulted(id),
        forall|id: u64|
            p.job_faulted(id) ==> exists|w: int|
                0 <= w < p.size() && p.worker(w) == WorkerPhase::Failed,
{
    assert forall|id: u64| id < p.submitted() implies p.job_completed(id) || p.job_faulted(id) by {
        assert(p.log().len() == p.submitted() as int);
        assert(p.log()[id as int].job == id);
    }
    assert forall|id: u64| p.job_faulted(id) implies exists|w: int|
        0 <= w < p.size() && p.worker(w) == WorkerPhase::Failed by {
        let i0 = choose|i: int|
            0 <= i < p.log().len() && (#[trigger] p.log()[i]).job == id && p.log()[i].outcome
                == JobOutcome::Faulted;
        assert(p.worker(p.log()[i0].worker as int) == WorkerPhase::Failed);
    }
}

} // verus!
