//! Work orders and the shared FIFO job queue agents claim from.

use std::collections::VecDeque;

use vstd::prelude::*;

use crate::features::Features;
use crate::map::GridMap;
use crate::tile::TilePos;

verus! {

/// The kind of work an order asks for.
#[derive(Clone, Copy, Debug, PartialEq, Eq, Structural)]
pub enum Jobs {
    Chop,
    Mine,
    Build(Features),
    Clear,
}

impl Jobs {
    pub open spec fn speed_spec(self) -> int {
        match self {
            Jobs::Chop => 20000,
            Jobs::Mine => 20000,
            Jobs::Build(_) => 30000,
            Jobs::Clear => 30000,
        }
    }

    /// How fast an adjacent agent works this job, in thousandths of a
    /// progress point per second; a job completes at 100 points.
    pub fn speed(&self) -> (r: u32)
        ensures
            r == self.speed_spec(),
    {
        match self {
            Jobs::Chop => 20000,
            Jobs::Mine => 20000,
            Jobs::Build(_) => 30000,
            Jobs::Clear => 30000,
        }
    }
}

/// A pending work order: what to do and on which tile.
#[derive(Copy, Clone, Debug, PartialEq, Eq, Structural)]
pub struct Job {
    pub job_type: Jobs,
    pub position: TilePos,
}

impl Job {
    pub fn new(job_type: Jobs, position: TilePos) -> (r: Job)
        ensures
            r.job_type == job_type,
            r.position == position,
    {
        Job { job_type, position }
    }
}

/// An ordered FIFO collection of pending jobs. A job stays queued until an
/// agent claims it; a claim whose target is unreachable puts the job back
/// at the tail instead of discarding it.
#[derive(Debug, Clone)]
pub struct JobQueue {
    pub jobs: VecDeque<Job>,
}

/// One claim against the queue model: the front job leaves, or nothing
/// happens on an empty queue.
pub open spec fn claim_model(s: Seq<Job>) -> (Option<Job>, Seq<Job>) {
    if s.len() == 0 {
        (None::<Job>, s)
    } else {
        (Some(s[0]), s.drop_first())
    }
}

/// The job the n-th successive claim returns, counting from 0.
pub open spec fn nth_claim(s: Seq<Job>, n: int) -> Option<Job>
    decreases n,
{
    if n <= 0 {
        claim_model(s).0
    } else {
        nth_claim(claim_model(s).1, n - 1)
    }
}

impl JobQueue {
    /// An empty queue.
    pub fn new() -> (r: JobQueue)
        ensures
            r.jobs@ == Seq::<Job>::empty(),
    {
        JobQueue { jobs: VecDeque::new() }
    }

    /// Appends a new order at the back of the queue.
    pub fn enqueue(&mut self, job: Job)
        ensures
            final(self).jobs@ == old(self).jobs@.push(job),
    {
        self.jobs.push_back(job);
    }

    /// Puts a claimed job back at the back of the queue, used when its
    /// target turned out unreachable at claim time.
    pub fn requeue(&mut self, job: Job)
        ensures
            final(self).jobs@ == old(self).jobs@.push(job),
    {
        self.jobs.push_back(job);
    }

    /// Pops the frontmost pending job, if any: pure FIFO, no look-ahead.
    pub fn try_claim(&mut self) -> (r: Option<Job>)
        ensures
            r == claim_model(old(self).jobs@).0,
            final(self).jobs@ == claim_model(old(self).jobs@).1,
    {
        let r = self.jobs.pop_front();
        proof {
            if old(self).jobs@.len() > 0 {
                assert(final(self).jobs@ =~= old(self).jobs@.drop_first());
            }
        }
        r
    }

    /// Claims the front job if its target can be worked from a neighboring
    /// tile; otherwise moves it to the back and claims nothing. The queue
    /// length never changes on rejection.
    pub fn claim_accessible(&mut self, map: &GridMap) -> (r: Option<Job>)
        requires
            map.wf(),
        ensures
            old(self).jobs@.len() == 0 ==> r is None && final(self).jobs@ == old(self).jobs@,
            old(self).jobs@.len() > 0 && map.is_neighbor_passable_spec(
                old(self).jobs@[0].position.x as int,
                old(self).jobs@[0].position.y as int,
            ) ==> r == Some(old(self).jobs@[0]) && final(self).jobs@ == old(
                self,
            ).jobs@.drop_first(),
            old(self).jobs@.len() > 0 && !map.is_neighbor_passable_spec(
                old(self).jobs@[0].position.x as int,
                old(self).jobs@[0].position.y as int,
            ) ==> r is None && final(self).jobs@ == old(self).jobs@.drop_first().push(
                old(self).jobs@[0],
            ) && final(self).jobs@.len() == old(self).jobs@.len(),
    {
        match self.try_claim() {
            None => None,
            Some(job) => {
                if map.is_neighbor_passable(job.position.x, job.position.y) {
                    Some(job)
                } else {
                    self.requeue(job);
                    None
                }
            },
        }
    }

    /// Some queued job's target is workable from a neighboring tile.
    pub open spec fn any_accessible_spec(self, map: GridMap) -> bool {
        exists|i: int|
            0 <= i < self.jobs@.len() && map.is_neighbor_passable_spec(
                #[trigger] self.jobs@[i].position.x as int,
                self.jobs@[i].position.y as int,
            )
    }

    /// Whether some queued job's target is currently reachable from a
    /// neighboring tile; read-only, used by the work utility scorer.
    pub fn any_job_accessible(&self, map: &GridMap) -> (r: bool)
        requires
            map.wf(),
        ensures
            r == self.any_accessible_spec(*map),
    {
        let n = self.jobs.len();
        let mut i: usize = 0;
        while i < n
            invariant
                map.wf(),
                n == self.jobs@.len(),
                i <= n,
                forall|j: int|
                    0 <= j < i ==> !map.is_neighbor_passable_spec(
                        #[trigger] self.jobs@[j].position.x as int,
                        self.jobs@[j].position.y as int,
                    ),
            decreases n - i,
        {
            let job = self.jobs[i];
            if map.is_neighbor_passable(job.position.x, job.position.y) {
                return true;
            }
            i = i + 1;
        }
        false
    }
}

impl Default for JobQueue {
    /// The default queue is empty.
    fn default() -> (r: JobQueue)
        ensures
            r.jobs@ == Seq::<Job>::empty(),
    {
        JobQueue::new()
    }
}

/// Queue FIFO law: with no intervening requeue, successive claims return
/// the queued jobs in enqueue order, so of two jobs the earlier-enqueued
/// one is always claimed first.
pub proof fn lemma_queue_fifo(s: Seq<Job>, n: int)
    requires
        0 <= n < s.len(),
    ensures
        nth_claim(s, n) == Some(s[n]),
    decreases n,
{
    if n > 0 {
        lemma_queue_fifo(s.drop_first(), n - 1);
    }
}

/// Enqueue order is claim order: after enqueuing job `a` and then job `b`,
/// claim number `len(s)` returns `a` and the following claim returns `b`.
pub proof fn lemma_enqueue_claim_order(s: Seq<Job>, a: Job, b: Job)
    ensures
        nth_claim(s.push(a).push(b), s.len() as int) == Some(a),
        nth_claim(s.push(a).push(b), s.len() as int + 1) == Some(b),
{
    let t = s.push(a).push(b);
    lemma_queue_fifo(t, s.len() as int);
    lemma_queue_fifo(t, s.len() as int + 1);
}

} // verus!
