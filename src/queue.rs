use std::collections::VecDeque;
use vstd::prelude::*;

verus! {

/// What a worker gets when it asks the queue for work.
pub enum Take<J> {
    /// The oldest pending job, now owned by the caller.
    Job(J),
    /// Nothing is pending but producers may still submit: block and ask again.
    Wait,
    /// Nothing is pending and the queue is closed: the worker should stop.
    Closed,
}

/// Error returned when a job is submitted after the queue was closed.
#[derive(Debug, PartialEq, Eq, Structural, Clone, Copy)]
pub struct PoolClosed;

/// Abstract state of a job queue: the jobs not yet handed out, oldest first,
/// and whether the submitting side has been closed.
pub struct QueueState<J> {
    pub pending: Seq<J>,
    pub closed: bool,
}

impl<J> QueueState<J> {
    /// An open queue with nothing pending.
    pub open spec fn fresh() -> QueueState<J> {
        QueueState { pending: Seq::empty(), closed: false }
    }

    /// State after a submission: appended when open, unchanged when closed.
    pub open spec fn submit(self, job: J) -> QueueState<J> {
        if self.closed {
            self
        } else {
            QueueState { pending: self.pending.push(job), closed: false }
        }
    }

    /// State after submitting every job of `jobs`, in order.
    pub open spec fn submit_all(self, jobs: Seq<J>) -> QueueState<J>
        decreases jobs.len(),
    {
        if jobs.len() == 0 {
            self
        } else {
            self.submit(jobs[0]).submit_all(jobs.drop_first())
        }
    }

    /// State after closing the submitting side.
    pub open spec fn close(self) -> QueueState<J> {
        QueueState { pending: self.pending, closed: true }
    }

    /// What a take returns in this state.
    pub open spec fn take_outcome(self) -> Take<J> {
        if self.pending.len() > 0 {
            Take::Job(self.pending[0])
        } else if self.closed {
            Take::Closed
        } else {
            Take::Wait
        }
    }

    /// State after a take.
    pub open spec fn take(self) -> QueueState<J> {
        if self.pending.len() > 0 {
            QueueState { pending: self.pending.drop_first(), closed: self.closed }
        } else {
            self
        }
    }

    /// The jobs handed out by `n` successive takes, in the order they leave.
    pub open spec fn delivered(self, n: nat) -> Seq<J>
        decreases n,
    {
        if n == 0 {
            Seq::empty()
        } else {
            match self.take_outcome() {
                Take::Job(j) => seq![j] + self.take().delivered((n - 1) as nat),
                _ => Seq::empty(),
            }
        }
    }

    /// State after `n` successive takes.
    pub open spec fn take_n(self, n: nat) -> QueueState<J>
        decreases n,
    {
        if n == 0 {
            self
        } else {
            self.take().take_n((n - 1) as nat)
        }
    }
}

/// A first-in first-out queue of jobs with a one-way close switch.
///
/// Producers `submit`; consumers `take`. Once closed, submissions are refused,
/// but the jobs already pending are still handed out, oldest first, and only
/// then does `take` report `Closed`, to every caller from then on.
pub struct JobQueue<J> {
    pending: VecDeque<J>,
    closed: bool,
}

impl<J> View for JobQueue<J> {
    type V = QueueState<J>;

    closed spec fn view(&self) -> QueueState<J> {
        QueueState { pending: self.pending@, closed: self.closed }
    }
}

impl<J> JobQueue<J> {
    /// An open, empty queue.
    pub fn new() -> (r: JobQueue<J>)
        ensures
            r@ == QueueState::<J>::fresh(),
    {
        JobQueue { pending: VecDeque::new(), closed: false }
    }

    /// Enqueues `job` unless the queue is closed; never waits.
    pub fn submit(&mut self, job: J) -> (r: Result<(), PoolClosed>)
        ensures
            final(self)@ == old(self)@.submit(job),
            r is Ok <==> !old(self)@.closed,
    {
        if self.closed {
            Err(PoolClosed)
        } else {
            self.pending.push_back(job);
            Ok(())
        }
    }

    /// Closes the submitting side. Closing twice is the same as closing once.
    pub fn close(&mut self)
        ensures
            final(self)@ == old(self)@.close(),
    {
        self.closed = true;
    }

    /// Hands out the oldest pending job, or says whether to wait or stop.
    pub fn take(&mut self) -> (r: Take<J>)
        ensures
            r == old(self)@.take_outcome(),
            final(self)@ == old(self)@.take(),
    {
        match self.pending.pop_front() {
            Some(job) => Take::Job(job),
            None => if self.closed {
                Take::Closed
            } else {
                Take::Wait
            },
        }
    }

    /// Number of jobs submitted and not yet taken.
    pub fn len(&self) -> (r: usize)
        ensures
            r == self@.pending.len(),
    {
        self.pending.len()
    }

    /// Whether the submitting side has been closed.
    pub fn is_closed(&self) -> (r: bool)
        ensures
            r == self@.closed,
    {
        self.closed
    }
}

/// Submitting a sequence to an open queue appends it, in order; a closed
/// queue ignores it.
pub proof fn lemma_submit_all<J>(q: QueueState<J>, jobs: Seq<J>)
    ensures
        q.submit_all(jobs) == (if q.closed {
            q
        } else {
            QueueState { pending: q.pending + jobs, closed: false }
        }),
    decreases jobs.len(),
{
    if jobs.len() > 0 {
        lemma_submit_all(q.submit(jobs[0]), jobs.drop_first());
        assert(q.pending.push(jobs[0]) + jobs.drop_first() =~= q.pending + jobs);
    }
}

/// Taking as many times as there are pending jobs hands out exactly the
/// pending jobs, oldest first, and leaves nothing pending. Any take beyond
/// that hands out nothing more.
pub proof fn lemma_drain<J>(q: QueueState<J>, n: nat)
    requires
        n >= q.pending.len(),
    ensures
        q.delivered(n) == q.pending,
        q.take_n(n).pending.len() == 0,
        q.take_n(n).closed == q.closed,
    decreases n,
{
    if n > 0 {
        lemma_drain(q.take(), (n - 1) as nat);
        if q.pending.len() > 0 {
            assert(seq![q.pending[0]] + q.pending.drop_first() =~= q.pending);
        } else {
            assert(q.pending =~= Seq::<J>::empty());
        }
    }
}

/// After `k` takes, the jobs still pending are those after the first `k`.
pub proof fn lemma_take_n<J>(q: QueueState<J>, k: nat)
    requires
        k <= q.pending.len(),
    ensures
        q.take_n(k).pending == q.pending.subrange(k as int, q.pending.len() as int),
        q.take_n(k).closed == q.closed,
    decreases k,
{
    if k > 0 {
        lemma_take_n(q.take(), (k - 1) as nat);
        assert(q.pending.drop_first().subrange(k - 1, q.pending.len() - 1) =~= q.pending.subrange(
            k as int,
            q.pending.len() as int,
        ));
    }
}

/// Every job submitted to a fresh pool is handed out exactly once, in
/// submission order, however often the workers ask. After shutdown the
/// `k`th take still hands out the `k`th job; only once all are handed out
/// does a take say `Closed`, and from then on every take does.
pub proof fn every_submitted_job_runs_once<J>(jobs: Seq<J>, n: nat)
    requires
        n >= jobs.len(),
    ensures
        QueueState::<J>::fresh().submit_all(jobs).close().delivered(n) == jobs,
        forall|k: nat|
            k < jobs.len() ==> #[trigger] QueueState::<J>::fresh().submit_all(jobs).close().take_n(
                k,
            ).take_outcome() == Take::Job(jobs[k as int]),
        QueueState::<J>::fresh().submit_all(jobs).close().take_n(n).take_outcome() is Closed,
{
    let q = QueueState::<J>::fresh();
    lemma_submit_all(q, jobs);
    assert(q.pending + jobs =~= jobs);
    let c = q.submit_all(jobs).close();
    lemma_drain(c, n);
    assert forall|k: nat| k < jobs.len() implies #[trigger] c.take_n(k).take_outcome() == Take::Job(
        jobs[k as int],
    ) by {
        lemma_take_n(c, k);
    }
}

/// Once the pool is shut down, a submission is refused: the queue is left as
/// it was, so the refused job is never handed out.
pub proof fn submission_after_close_never_runs<J>(q: QueueState<J>, job: J, n: nat)
    ensures
        q.close().submit(job) == q.close(),
        q.close().submit(job).delivered(n) == q.close().delivered(n),
{
}

/// Whatever the interleaving of producers, the jobs of any one producer
/// (those for which `mine` holds) are handed out in the order that producer
/// submitted them, after the ones of its that were already pending.
pub proof fn producer_order_is_kept<J>(q: QueueState<J>, subs: Seq<J>, mine: spec_fn(J) -> bool)
    requires
        !q.closed,
    ensures
        q.submit_all(subs).close().delivered(q.pending.len() + subs.len()).filter(mine)
            == q.pending.filter(mine) + subs.filter(mine),
{
    lemma_submit_all(q, subs);
    lemma_drain(q.submit_all(subs).close(), q.pending.len() + subs.len());
    Seq::filter_distributes_over_add(q.pending, subs, mine);
}

/// Shutting down with nothing pending releases every waiting worker at once:
/// each take on the closed queue, however many there are, says `Closed`.
pub proof fn closing_idle_queue_releases_workers<J>(q: QueueState<J>, n: nat)
    requires
        q.pending.len() == 0,
    ensures
        q.close().take_n(n).take_outcome() is Closed,
        q.close().delivered(n).len() == 0,
{
    lemma_drain(q.close(), n);
}

} // verus!
