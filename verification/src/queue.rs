//! The job queue scheduler: a FIFO pending list, a concurrency bound with a
//! deliberate one-job overshoot, and an optional throttle that forces a pause
//! after a configured number of dispatches.
//!
//! The scheduler is a state machine. One call of [`Queue::schedule_step`]
//! makes one decision of the coordination loop; the caller owns the clock and
//! the threads, performs the returned [`ScheduleAction`] (sleep, or start the
//! handed-out job), and reports how many running jobs have finished. All
//! blocking therefore happens outside the queue state, so submitters are
//! never held up by a sleeping scheduler.

use vstd::prelude::*;

verus! {

/// One schedulable unit of work: run to completion, once, on whatever
/// thread invokes it.
pub trait QueueJob {
    fn run(&mut self);
}

/// The scheduler's own data: the pending jobs and the dispatch policy.
///
/// The policy is fixed at construction. Times are in milliseconds.
pub struct QueueData<J> {
    /// Pending jobs, oldest first.
    jobs: Vec<J>,
    /// How many jobs may run at once before the scheduler waits.
    simultaneously: usize,
    /// The pacing delay before each dispatch.
    delay_ms: u64,
    /// How long to sleep when there is nothing to do.
    sampling_rate_ms: u64,
    /// When set, the pause forced after too many dispatches.
    job_limit_delay_ms: Option<u64>,
    /// The number of dispatches after which the forced pause kicks in.
    job_limit: usize,
}

impl<J> QueueData<J> {
    pub closed spec fn spec_jobs(self) -> Seq<J> {
        self.jobs@
    }

    pub closed spec fn spec_simultaneously(self) -> usize {
        self.simultaneously
    }

    pub closed spec fn spec_delay_ms(self) -> u64 {
        self.delay_ms
    }

    pub closed spec fn spec_sampling_rate_ms(self) -> u64 {
        self.sampling_rate_ms
    }

    pub closed spec fn spec_job_limit_delay_ms(self) -> Option<u64> {
        self.job_limit_delay_ms
    }

    pub closed spec fn spec_job_limit(self) -> usize {
        self.job_limit
    }

    /// The default policy: two jobs at once, two seconds of pacing, two
    /// seconds of idle sampling, no throttle.
    pub fn new() -> (r: Self)
        ensures
            r.spec_jobs() =~= Seq::<J>::empty(),
            r.spec_simultaneously() == 2,
            r.spec_delay_ms() == 2000,
            r.spec_sampling_rate_ms() == 2000,
            r.spec_job_limit_delay_ms() is None,
            r.spec_job_limit() == 0,
    {
        QueueData {
            jobs: Vec::new(),
            simultaneously: 2,
            delay_ms: 2000,
            sampling_rate_ms: 2000,
            job_limit_delay_ms: None,
            job_limit: 0,
        }
    }

    /// A policy of the caller's choosing, with an empty pending list.
    pub fn with_policy(
        simultaneously: usize,
        delay_ms: u64,
        sampling_rate_ms: u64,
        job_limit_delay_ms: Option<u64>,
        job_limit: usize,
    ) -> (r: Self)
        requires
            simultaneously < usize::MAX,
            job_limit < usize::MAX,
        ensures
            r.spec_jobs() =~= Seq::<J>::empty(),
            r.spec_simultaneously() == simultaneously,
            r.spec_delay_ms() == delay_ms,
            r.spec_sampling_rate_ms() == sampling_rate_ms,
            r.spec_job_limit_delay_ms() == job_limit_delay_ms,
            r.spec_job_limit() == job_limit,
    {
        QueueData {
            jobs: Vec::new(),
            simultaneously,
            delay_ms,
            sampling_rate_ms,
            job_limit_delay_ms,
            job_limit,
        }
    }
}

/// What the coordination loop decides to do in one iteration.
pub enum ScheduleAction<J> {
    /// Nothing is pending: sleep for the sampling rate.
    Idle { sleep_ms: u64 },
    /// Too many dispatches since the last pause: sleep for the throttle
    /// pause; no job leaves the queue this iteration.
    Throttled { sleep_ms: u64 },
    /// Every slot is taken: sleep for the sampling rate.
    Saturated { sleep_ms: u64 },
    /// Start this job after the pacing delay.
    Dispatch { job: J, delay_ms: u64 },
}

/// The scheduler: the pending list and policy, the count of running jobs,
/// and the throttle counter. The two ghost sequences record every job ever
/// submitted and every job ever dispatched, in order, and carry the FIFO
/// guarantee.
pub struct Queue<J> {
    data: QueueData<J>,
    /// How many dispatched jobs the caller has not yet reported finished.
    running: usize,
    /// Dispatches since the last throttle pause, capped one past the limit.
    counter: usize,
    submitted: Ghost<Seq<J>>,
    dispatched: Ghost<Seq<J>>,
}

impl<J> Queue<J> {
    pub closed spec fn pending(self) -> Seq<J> {
        self.data.jobs@
    }

    pub closed spec fn running_count(self) -> usize {
        self.running
    }

    pub closed spec fn throttle_counter(self) -> usize {
        self.counter
    }

    pub closed spec fn submitted_jobs(self) -> Seq<J> {
        self.submitted@
    }

    pub closed spec fn dispatched_jobs(self) -> Seq<J> {
        self.dispatched@
    }

    pub closed spec fn spec_simultaneously(self) -> usize {
        self.data.simultaneously
    }

    pub closed spec fn spec_job_limit(self) -> usize {
        self.data.job_limit
    }

    pub closed spec fn spec_job_limit_delay_ms(self) -> Option<u64> {
        self.data.job_limit_delay_ms
    }

    pub closed spec fn spec_delay_ms(self) -> u64 {
        self.data.delay_ms
    }

    pub closed spec fn spec_sampling_rate_ms(self) -> u64 {
        self.data.sampling_rate_ms
    }

    /// Two scheduler states carry the same policy.
    pub open spec fn same_policy(a: Self, b: Self) -> bool {
        &&& a.spec_simultaneously() == b.spec_simultaneously()
        &&& a.spec_delay_ms() == b.spec_delay_ms()
        &&& a.spec_sampling_rate_ms() == b.spec_sampling_rate_ms()
        &&& a.spec_job_limit_delay_ms() == b.spec_job_limit_delay_ms()
        &&& a.spec_job_limit() == b.spec_job_limit()
    }

    /// The scheduler invariant.
    ///
    /// The submission history is exactly the dispatch history followed by
    /// the pending list; the running count never passes the concurrency
    /// bound by more than one; the throttle counter never passes one past
    /// the limit.
    pub open spec fn wf(self) -> bool {
        &&& self.submitted_jobs() == self.dispatched_jobs() + self.pending()
        &&& self.running_count() <= self.spec_simultaneously() + 1
        &&& self.throttle_counter() <= self.spec_job_limit() + 1
        &&& self.spec_simultaneously() < usize::MAX
        &&& self.spec_job_limit() < usize::MAX
    }

    /// Nothing is pending.
    pub open spec fn queue_idle(self) -> bool {
        self.pending().len() == 0
    }

    /// A throttle pause is due: throttling is configured and the counter
    /// has passed the limit.
    ///
    /// The comparison is deliberately strict. Two readings of "a pause
    /// after `job_limit` dispatches" are possible — pause once the counter
    /// reaches the limit, or once it exceeds it — and this scheduler
    /// settles on the strict one: with limit t, the jobs numbered 0
    /// through t go out, and the pause separates job number t from job
    /// number t + 1. `lemma_throttle_pause` states exactly that.
    pub open spec fn throttle_due(self) -> bool {
        self.spec_job_limit_delay_ms() is Some && self.throttle_counter() > self.spec_job_limit()
    }

    /// The transition one call of `schedule_step` makes, as a relation
    /// between the state before, the number of jobs reported finished, the
    /// state after, and the action returned.
    pub open spec fn step_rel(pre: Self, finished: int, post: Self, action: ScheduleAction<J>) -> bool {
        if pre.queue_idle() {
            &&& action == (ScheduleAction::<J>::Idle { sleep_ms: pre.spec_sampling_rate_ms() })
            &&& post == pre
        } else if pre.throttle_due() {
            &&& action == (ScheduleAction::<J>::Throttled {
                sleep_ms: pre.spec_job_limit_delay_ms()->Some_0,
            })
            &&& post.pending() == pre.pending()
            &&& post.running_count() == pre.running_count()
            &&& post.throttle_counter() == 0
            &&& post.submitted_jobs() == pre.submitted_jobs()
            &&& post.dispatched_jobs() == pre.dispatched_jobs()
            &&& Self::same_policy(pre, post)
        } else if pre.running_count() - finished > pre.spec_simultaneously() {
            &&& action == (ScheduleAction::<J>::Saturated { sleep_ms: pre.spec_sampling_rate_ms() })
            &&& post.pending() == pre.pending()
            &&& post.running_count() == pre.running_count() - finished
            &&& post.throttle_counter() == pre.throttle_counter()
            &&& post.submitted_jobs() == pre.submitted_jobs()
            &&& post.dispatched_jobs() == pre.dispatched_jobs()
            &&& Self::same_policy(pre, post)
        } else {
            &&& action == (ScheduleAction::<J>::Dispatch {
                job: pre.pending()[0],
                delay_ms: pre.spec_delay_ms(),
            })
            &&& post.pending() == pre.pending().drop_first()
            &&& post.running_count() == pre.running_count() - finished + 1
            &&& post.throttle_counter() == (if pre.throttle_counter() <= pre.spec_job_limit() {
                pre.throttle_counter() + 1
            } else {
                pre.throttle_counter() as int
            })
            &&& post.submitted_jobs() == pre.submitted_jobs()
            &&& post.dispatched_jobs() == pre.dispatched_jobs().push(pre.pending()[0])
            &&& Self::same_policy(pre, post)
        }
    }

    /// A scheduler with the default policy and nothing submitted.
    pub fn new() -> (r: Self)
        ensures
            r.wf(),
            r.pending() =~= Seq::<J>::empty(),
            r.submitted_jobs() =~= Seq::<J>::empty(),
            r.dispatched_jobs() =~= Seq::<J>::empty(),
            r.running_count() == 0,
            r.throttle_counter() == 0,
            r.spec_simultaneously() == 2,
            r.spec_delay_ms() == 2000,
            r.spec_sampling_rate_ms() == 2000,
            r.spec_job_limit_delay_ms() is None,
            r.spec_job_limit() == 0,
    {
        Queue {
            data: QueueData::new(),
            running: 0,
            counter: 0,
            submitted: Ghost(Seq::empty()),
            dispatched: Ghost(Seq::empty()),
        }
    }

    /// A scheduler around the given policy, with nothing submitted.
    pub fn with_data(data: QueueData<J>) -> (r: Self)
        requires
            data.spec_jobs().len() == 0,
            data.spec_simultaneously() < usize::MAX,
            data.spec_job_limit() < usize::MAX,
        ensures
            r.wf(),
            r.pending() == data.spec_jobs(),
            r.submitted_jobs() =~= Seq::<J>::empty(),
            r.dispatched_jobs() =~= Seq::<J>::empty(),
            r.running_count() == 0,
            r.throttle_counter() == 0,
            r.spec_simultaneously() == data.spec_simultaneously(),
            r.spec_delay_ms() == data.spec_delay_ms(),
            r.spec_sampling_rate_ms() == data.spec_sampling_rate_ms(),
            r.spec_job_limit() == data.spec_job_limit(),
            r.spec_job_limit_delay_ms() == data.spec_job_limit_delay_ms(),
    {
        Queue {
            data,
            running: 0,
            counter: 0,
            submitted: Ghost(Seq::empty()),
            dispatched: Ghost(Seq::empty()),
        }
    }

    /// How many dispatched jobs the caller has not yet reported finished;
    /// the caller reads it to bound what it reports to `schedule_step`.
    pub fn running_jobs(&self) -> (r: usize)
        ensures
            r == self.running_count(),
    {
        self.running
    }

    /// Appends a job to the tail of the pending list. Submission always
    /// succeeds and never blocks on execution.
    pub fn push(&mut self, job: J)
        requires
            old(self).wf(),
        ensures
            final(self).wf(),
            final(self).pending() == old(self).pending().push(job),
            final(self).submitted_jobs() == old(self).submitted_jobs().push(job),
            final(self).dispatched_jobs() == old(self).dispatched_jobs(),
            final(self).running_count() == old(self).running_count(),
            final(self).throttle_counter() == old(self).throttle_counter(),
            Self::same_policy(*old(self), *final(self)),
    {
        let ghost j = job;
        self.data.jobs.push(job);
        self.submitted = Ghost(self.submitted@.push(j));
    }

    /// One decision of the coordination loop.
    ///
    /// `finished` is how many of the running jobs the caller has observed
    /// to be done; they are pruned from the running count before the
    /// capacity check, exactly when the queue is neither idle nor
    /// throttled. The rest of the decision follows `step_rel`: an empty
    /// queue sleeps, a due throttle pauses and resets its counter, a full
    /// running set sleeps, and otherwise the oldest pending job is handed
    /// out for dispatch after the pacing delay.
    pub fn schedule_step(&mut self, finished: usize) -> (action: ScheduleAction<J>)
        requires
            old(self).wf(),
            finished <= old(self).running_count(),
        ensures
            final(self).wf(),
            Self::step_rel(*old(self), finished as int, *final(self), action),
    {
        if self.data.jobs.len() == 0 {
            return ScheduleAction::Idle { sleep_ms: self.data.sampling_rate_ms };
        }
        if let Some(pause) = self.data.job_limit_delay_ms {
            if self.counter > self.data.job_limit {
                self.counter = 0;
                return ScheduleAction::Throttled { sleep_ms: pause };
            }
        }
        let now_running = self.running - finished;
        if now_running > self.data.simultaneously {
            self.running = now_running;
            return ScheduleAction::Saturated { sleep_ms: self.data.sampling_rate_ms };
        }
        let ghost j = self.data.jobs@[0];
        let job = self.data.jobs.remove(0);
        self.running = now_running + 1;
        // The counter only ever needs to witness that the limit was passed,
        // so it is capped one past the limit instead of growing without
        // bound when no throttle pause resets it.
        if self.counter <= self.data.job_limit {
            self.counter = self.counter + 1;
        }
        self.dispatched = Ghost(self.dispatched@.push(j));
        proof {
            assert(self.data.jobs@ =~= old(self).data.jobs@.drop_first());
            assert(self.submitted@ =~= self.dispatched@ + self.data.jobs@);
        }
        ScheduleAction::Dispatch { job, delay_ms: self.data.delay_ms }
    }

    /// FIFO law: under the scheduler invariant the k-th job ever
    /// dispatched is the k-th job ever submitted, so jobs begin execution
    /// in the order they were submitted.
    pub proof fn lemma_fifo_order(q: Self)
        requires
            q.wf(),
        ensures
            q.dispatched_jobs().len() <= q.submitted_jobs().len(),
            forall|k: int|
                0 <= k < q.dispatched_jobs().len() ==> q.dispatched_jobs()[k]
                    == q.submitted_jobs()[k],
    {
        assert forall|k: int|
            0 <= k < q.dispatched_jobs().len() implies q.dispatched_jobs()[k]
            == q.submitted_jobs()[k] by {
            assert(q.submitted_jobs()[k] == (q.dispatched_jobs() + q.pending())[k]);
        }
    }

    /// Concurrency law: the number of jobs out running never passes the
    /// configured bound by more than one. The single overshoot is the
    /// scheduler's own strict comparison against the bound, kept as it is.
    pub proof fn lemma_concurrency_bound(q: Self)
        requires
            q.wf(),
        ensures
            q.running_count() <= q.spec_simultaneously() + 1,
    {
    }

    /// A job is handed out only while the pruned running count is within
    /// the bound, so one dispatch leaves the count at most one past it.
    pub proof fn lemma_dispatch_within_bound(
        pre: Self,
        finished: int,
        post: Self,
        action: ScheduleAction<J>,
    )
        requires
            Self::step_rel(pre, finished, post, action),
            action is Dispatch,
        ensures
            pre.running_count() - finished <= pre.spec_simultaneously(),
            post.running_count() <= pre.spec_simultaneously() + 1,
    {
    }

    /// Throttle law: once a dispatch has driven the counter past the
    /// limit, the next decision on a nonempty queue is the configured
    /// throttle pause. No job is dispatched by that decision, and the
    /// counter starts over, so the pause separates the dispatch that
    /// crossed the limit from the next one.
    pub proof fn lemma_throttle_pause(
        pre: Self,
        f1: int,
        mid: Self,
        a1: ScheduleAction<J>,
        f2: int,
        post: Self,
        a2: ScheduleAction<J>,
    )
        requires
            Self::step_rel(pre, f1, mid, a1),
            a1 is Dispatch,
            mid.throttle_due(),
            !mid.queue_idle(),
            Self::step_rel(mid, f2, post, a2),
        ensures
            a2 == (ScheduleAction::<J>::Throttled {
                sleep_ms: mid.spec_job_limit_delay_ms()->Some_0,
            }),
            post.dispatched_jobs() == mid.dispatched_jobs(),
            post.throttle_counter() == 0,
    {
    }
}

} // verus!
